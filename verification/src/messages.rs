use vstd::prelude::*;

verus! {

/// The kind of a protocol message between the server and its clients.
#[derive(Clone, Copy, Debug, PartialEq, Eq, Structural)]
pub enum MessageType {
    Init,
    Join,
    Leave,
    Error,
    Peer,
    Entity,
    Load,
    Unload,
    Update,
    Method,
    Chat,
    Transport,
}

/// Which clients a broadcast message goes to.
pub enum ClientFilter {
    All,
    Include(Vec<String>),
    Exclude(Vec<String>),
    Direct(String),
}

/// The mathematical value of a [`ClientFilter`].
pub enum FilterView {
    All,
    Include(Seq<Seq<char>>),
    Exclude(Seq<Seq<char>>),
    Direct(Seq<char>),
}

impl View for ClientFilter {
    type V = FilterView;

    open spec fn view(&self) -> FilterView {
        match self {
            ClientFilter::All => FilterView::All,
            ClientFilter::Include(ids) => FilterView::Include(ids@.map_values(|s: String| s@)),
            ClientFilter::Exclude(ids) => FilterView::Exclude(ids@.map_values(|s: String| s@)),
            ClientFilter::Direct(id) => FilterView::Direct(id@),
        }
    }
}

/// A peer as the protocol names it: its id and user name (the position and
/// direction a client reports travel beside it, to the physics side).
pub struct PeerProtocol {
    pub id: String,
    pub username: String,
}

/// The mathematical value of a [`PeerProtocol`].
pub struct PeerView {
    pub id: Seq<char>,
    pub username: Seq<char>,
}

impl View for PeerProtocol {
    type V = PeerView;

    open spec fn view(&self) -> PeerView {
        PeerView { id: self.id@, username: self.username@ }
    }
}

/// An entity as the protocol names it: its id, its type, and its metadata as
/// JSON text.
pub struct EntityProtocol {
    pub id: String,
    pub etype: String,
    pub metadata: Option<String>,
}

/// The mathematical value of an [`EntityProtocol`].
pub struct EntityView {
    pub id: Seq<char>,
    pub etype: Seq<char>,
    pub metadata: Option<Seq<char>>,
}

impl View for EntityProtocol {
    type V = EntityView;

    open spec fn view(&self) -> EntityView {
        EntityView {
            id: self.id@,
            etype: self.etype@,
            metadata: match self.metadata {
                Some(m) => Some(m@),
                None => None,
            },
        }
    }
}

/// A chat line: who sent it and what it says.
pub struct ChatMessage {
    pub sender: String,
    pub body: String,
}

/// The mathematical value of a [`ChatMessage`].
pub struct ChatView {
    pub sender: Seq<char>,
    pub body: Seq<char>,
}

impl View for ChatMessage {
    type V = ChatView;

    open spec fn view(&self) -> ChatView {
        ChatView { sender: self.sender@, body: self.body@ }
    }
}

/// A request to set the voxel at `(vx, vy, vz)` to `voxel`.
#[derive(Clone, Copy, Debug, PartialEq, Eq, Structural)]
pub struct VoxelUpdate {
    pub vx: i32,
    pub vy: i32,
    pub vz: i32,
    pub voxel: u32,
}

/// A protocol message.
pub struct Message {
    pub kind: MessageType,
    pub json: String,
    pub text: String,
    pub peers: Vec<PeerProtocol>,
    pub entities: Vec<EntityProtocol>,
    pub chat: Option<ChatMessage>,
    pub updates: Vec<VoxelUpdate>,
}

/// The mathematical value of a [`Message`].
pub struct MessageView {
    pub kind: MessageType,
    pub json: Seq<char>,
    pub text: Seq<char>,
    pub peers: Seq<PeerView>,
    pub entities: Seq<EntityView>,
    pub chat: Option<ChatView>,
    pub updates: Seq<VoxelUpdate>,
}

impl View for Message {
    type V = MessageView;

    open spec fn view(&self) -> MessageView {
        MessageView {
            kind: self.kind,
            json: self.json@,
            text: self.text@,
            peers: self.peers@.map_values(|p: PeerProtocol| p@),
            entities: self.entities@.map_values(|e: EntityProtocol| e@),
            chat: match self.chat {
                Some(c) => Some(c@),
                None => None,
            },
            updates: self.updates@,
        }
    }
}

/// A message of the given kind with every other part empty.
pub open spec fn blank_message(kind: MessageType) -> MessageView {
    MessageView {
        kind,
        json: Seq::empty(),
        text: Seq::empty(),
        peers: Seq::empty(),
        entities: Seq::empty(),
        chat: None,
        updates: Seq::empty(),
    }
}

/// A message of the given kind that carries only the given text.
pub open spec fn text_message(kind: MessageType, text: Seq<char>) -> MessageView {
    MessageView { text, ..blank_message(kind) }
}

impl Message {
    /// A message of the given kind with every other part empty.
    pub fn new(kind: MessageType) -> (m: Message)
        ensures
            m@ == blank_message(kind),
    {
        let m = Message {
            kind,
            json: String::new(),
            text: String::new(),
            peers: Vec::new(),
            entities: Vec::new(),
            chat: None,
            updates: Vec::new(),
        };
        assert(m@.peers =~= Seq::<PeerView>::empty());
        assert(m@.entities =~= Seq::<EntityView>::empty());
        m
    }

    /// A message of the given kind carrying the given text.
    pub fn with_text(kind: MessageType, text: String) -> (m: Message)
        ensures
            m@ == text_message(kind, text@),
    {
        let mut m = Message::new(kind);
        m.text = text;
        m
    }
}

} // verus!
