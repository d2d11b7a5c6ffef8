//! Views over repository content, the per-project lock registry and the
//! decisions of the virtual-branch controller and of the change handler.

pub mod branch;
pub mod commit;
pub mod content;
pub mod controller;
pub mod dir;
pub mod git;
pub mod handler;
pub mod locks;
pub mod path;
pub mod reader;
pub mod wire;
