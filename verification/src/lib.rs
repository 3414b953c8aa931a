//! Cursor-driven pagination as a verified state machine, and an identity
//! adapter for service pipelines.

pub mod history;
pub mod page;
pub mod paginator;
pub mod replay;
pub mod transparent;
