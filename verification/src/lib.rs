//! The core of a Luanti (Minetest) network client: the handshake state
//! machine that sequences authentication and readiness before world data may
//! flow, the sparse mapblock store with neighbor-aware lookups, and the mesh
//! generation pipeline that turns mapblock data into face-culled geometry
//! while tolerating out-of-order completion of its worker tasks.
//!
//! The surrounding shell (the socket, the worker threads, the GPU and the
//! window) stays outside this crate and talks to it through plain values:
//! inbound commands go into `luanti_client::LuantiClientRunner`, which
//! answers with the actions to perform, and finished mesh results are merged
//! through `reconciler::RenderableMeshTable`, whose submission-timestamp
//! rule discards stale results however late they arrive.

pub mod assoc;
pub mod coords;
pub mod block;
pub mod map;
pub mod node_def;
pub mod meshgen;
pub mod reconciler;
pub mod media;
pub mod luanti_client;
pub mod voxels;
