use vstd::prelude::*;

verus! {

/// The handle of an entity of the entity-component store: its index and the
/// generation of that index.
#[derive(Clone, Copy, Debug, PartialEq, Eq, Structural)]
pub struct EntityId {
    pub index: u32,
    pub generation: i32,
}

/// A connected client: its id, the entity that stands for it, and its user name.
pub struct Client {
    pub id: String,
    pub entity: EntityId,
    pub username: String,
}

/// The mathematical value of a [`Client`].
pub struct ClientView {
    pub id: Seq<char>,
    pub entity: EntityId,
    pub username: Seq<char>,
}

impl View for Client {
    type V = ClientView;

    open spec fn view(&self) -> ClientView {
        ClientView { id: self.id@, entity: self.entity, username: self.username@ }
    }
}

/// The clients of a world, by client id, held in a `hashbrown::HashMap`.
#[verifier::external_body]
pub struct Clients {
    table: hashbrown::HashMap<String, Client>,
}

/// What a [`Clients`] table holds: each key's view, mapped to the view of its client.
pub uninterp spec fn clients_contents(t: Clients) -> Map<Seq<char>, ClientView>;

impl View for Clients {
    type V = Map<Seq<char>, ClientView>;

    open spec fn view(&self) -> Map<Seq<char>, ClientView> {
        clients_contents(*self)
    }
}

/// Creates the table with `hashbrown::HashMap::new`, which holds no entry.
#[verifier::external_body]
fn table_new() -> (table: Clients)
    ensures
        clients_contents(table).dom() == Set::<Seq<char>>::empty(),
{
    Clients { table: hashbrown::HashMap::new() }
}

/// `hashbrown::HashMap::insert`: afterwards the key maps to the given client and
/// every other key is unchanged; the client the key held before, if any, is
/// handed back. A `String` key is found by its characters.
#[verifier::external_body]
fn table_insert(t: &mut Clients, key: String, client: Client) -> (prev: Option<Client>)
    ensures
        clients_contents(*final(t)) == clients_contents(*old(t)).insert(key@, client@),
        prev is Some <==> clients_contents(*old(t)).contains_key(key@),
        prev matches Some(p) ==> p@ == clients_contents(*old(t))[key@],
{
    t.table.insert(key, client)
}

/// `hashbrown::HashMap::remove`: afterwards the key is absent and every other key
/// is unchanged; the client the key held, if any, is handed back.
#[verifier::external_body]
fn table_remove(t: &mut Clients, key: &str) -> (prev: Option<Client>)
    ensures
        clients_contents(*final(t)) == clients_contents(*old(t)).remove(key@),
        prev is Some <==> clients_contents(*old(t)).contains_key(key@),
        prev matches Some(p) ==> p@ == clients_contents(*old(t))[key@],
{
    t.table.remove(key)
}

/// `hashbrown::HashMap::get`: the client the key maps to, if any.
#[verifier::external_body]
fn table_get<'a>(t: &'a Clients, key: &str) -> (found: Option<&'a Client>)
    ensures
        found is Some <==> clients_contents(*t).contains_key(key@),
        found matches Some(c) ==> c@ == clients_contents(*t)[key@],
{
    t.table.get(key)
}

/// `hashbrown::HashMap::len`: the number of entries.
#[verifier::external_body]
fn table_len(t: &Clients) -> (n: usize)
    requires
        clients_contents(*t).dom().finite(),
    ensures
        n == clients_contents(*t).len(),
{
    t.table.len()
}

/// `hashbrown::HashMap::keys`, cloned into a vector: every key exactly once, in
/// the table's own order, which the source leaves unspecified.
#[verifier::external_body]
fn table_keys(t: &Clients) -> (keys: Vec<String>)
    requires
        clients_contents(*t).dom().finite(),
    ensures
        keys@.len() == clients_contents(*t).len(),
        forall|i: int| 0 <= i < keys@.len() ==> clients_contents(*t).contains_key(#[trigger] keys@[i]@),
        forall|i: int, j: int| 0 <= i < j < keys@.len() ==> #[trigger] keys@[i]@ != #[trigger] keys@[j]@,
        forall|k: Seq<char>| #[trigger] clients_contents(*t).contains_key(k) ==> exists|i: int| 0 <= i < keys@.len() && #[trigger] keys@[i]@ == k,
{
    t.table.keys().cloned().collect()
}

impl Clients {
    /// An empty table.
    pub fn new() -> (t: Self)
        ensures
            t@ == Map::<Seq<char>, ClientView>::empty(),
    {
        let t = table_new();
        assert(t@ =~= Map::<Seq<char>, ClientView>::empty());
        t
    }

    /// The client of the given id, if any.
    pub fn get(&self, id: &str) -> (found: Option<&Client>)
        ensures
            found is Some <==> self@.contains_key(id@),
            found matches Some(c) ==> c@ == self@[id@],
    {
        table_get(self, id)
    }

    /// The number of clients.
    pub fn len(&self) -> (n: usize)
        requires
            self@.dom().finite(),
        ensures
            n == self@.len(),
    {
        table_len(self)
    }

    /// Whether there is no client.
    pub fn is_empty(&self) -> (b: bool)
        requires
            self@.dom().finite(),
        ensures
            b <==> self@.dom() == Set::<Seq<char>>::empty(),
    {
        let n: usize = table_len(self);
        proof {
            vstd::set_lib::lemma_set_empty_equivalency_len(self@.dom());
        }
        n == 0
    }

    /// The ids of all clients, each once, in no particular order.
    pub fn ids(&self) -> (keys: Vec<String>)
        requires
            self@.dom().finite(),
        ensures
            keys@.len() == self@.len(),
            forall|i: int| 0 <= i < keys@.len() ==> self@.contains_key(#[trigger] keys@[i]@),
            forall|i: int, j: int| 0 <= i < j < keys@.len() ==> #[trigger] keys@[i]@ != #[trigger] keys@[j]@,
            forall|k: Seq<char>| #[trigger] self@.contains_key(k) ==> exists|i: int| 0 <= i < keys@.len() && #[trigger] keys@[i]@ == k,
    {
        table_keys(self)
    }

    /// Puts the client under the given id, handing back the one it replaces.
    pub(crate) fn insert(&mut self, id: String, client: Client) -> (prev: Option<Client>)
        ensures
            final(self)@ == old(self)@.insert(id@, client@),
            prev is Some <==> old(self)@.contains_key(id@),
            prev matches Some(p) ==> p@ == old(self)@[id@],
    {
        table_insert(self, id, client)
    }

    /// Takes out the client of the given id, if any.
    pub(crate) fn remove(&mut self, id: &str) -> (prev: Option<Client>)
        ensures
            final(self)@ == old(self)@.remove(id@),
            prev is Some <==> old(self)@.contains_key(id@),
            prev matches Some(p) ==> p@ == old(self)@[id@],
    {
        table_remove(self, id)
    }
}

} // verus!
