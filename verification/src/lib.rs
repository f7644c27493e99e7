//! The server-side world of a voxel game: its client registry, the routing of
//! client requests, the broadcast queue, the tick schedule and the chunk preload
//! plan, with the per-entity chunk component.

pub mod clients;
pub mod comps;
pub mod config;
pub mod ids;
pub mod messages;
pub mod preload;
pub mod schedule;
pub mod vec;
pub mod world;
pub mod laws;
