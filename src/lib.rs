//! Low-stock alerting: configuration rules, retry decisions, inventory and
//! chat identifiers, message rendering and the per-run notification state
//! machine.

pub mod config;
pub mod retry;
pub mod text;
pub mod inventory;
pub mod chat;
pub mod template;
pub mod pipeline;
