//! Campaign creation, ownership transfer, updates and comments.

pub mod create;
pub mod transfer;
pub mod update;
pub mod comments;
