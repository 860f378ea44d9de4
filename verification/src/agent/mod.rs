//! The social-media agent: its context of preferences and platforms, its
//! reading of requests, and its per-session message memory.

pub mod analysis;
pub mod memory;
pub mod socio;
pub mod context;
