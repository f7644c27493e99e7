use vstd::prelude::*;

verus! {

/// The settings a world is created with, as far as the world's own logic
/// reads them: whether it saves to disk and where, the seed of its terrain,
/// the size of a chunk, the preload radius, and the height and number of
/// sub-chunks of a chunk.
#[derive(Clone, Debug)]
pub struct WorldConfig {
    pub saving: bool,
    pub save_dir: String,
    pub seed: u32,
    pub chunk_size: usize,
    pub preload_radius: u32,
    pub max_height: usize,
    pub sub_chunks: usize,
}

/// The mathematical value of a [`WorldConfig`].
pub struct WorldConfigView {
    pub saving: bool,
    pub save_dir: Seq<char>,
    pub seed: u32,
    pub chunk_size: usize,
    pub preload_radius: u32,
    pub max_height: usize,
    pub sub_chunks: usize,
}

impl View for WorldConfig {
    type V = WorldConfigView;

    open spec fn view(&self) -> WorldConfigView {
        WorldConfigView {
            saving: self.saving,
            save_dir: self.save_dir@,
            seed: self.seed,
            chunk_size: self.chunk_size,
            preload_radius: self.preload_radius,
            max_height: self.max_height,
            sub_chunks: self.sub_chunks,
        }
    }
}

impl WorldConfig {
    /// A copy of the settings.
    pub fn copy(&self) -> (c: WorldConfig)
        ensures
            c@ == self@,
    {
        WorldConfig {
            saving: self.saving,
            save_dir: self.save_dir.clone(),
            seed: self.seed,
            chunk_size: self.chunk_size,
            preload_radius: self.preload_radius,
            max_height: self.max_height,
            sub_chunks: self.sub_chunks,
        }
    }
}

} // verus!
