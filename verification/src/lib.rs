//! Verified core of an embedded plugin host: capability handles for sandboxed
//! plugins, and the staged update pipeline that deploys them.

pub mod text;
pub mod bridge;
pub mod capability;
pub mod directory;
pub mod execution;
pub mod fault;
pub mod integrity;
pub mod manifest;
pub mod pipeline;
pub mod version;
