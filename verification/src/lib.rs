//! Verified core of a chat-driven event tracker: a per-user
//! conversation state machine for registration and mission submission,
//! an admin command grammar over per-team ledgers, and the renderers
//! for the team summary views.  Transport and storage stay outside; the
//! library works on plain bytes and values handed in by its caller.
pub mod commands;
pub mod convo;
pub mod decree;
pub mod dispatch;
pub mod ledger;
pub mod registry;
pub mod render;
pub mod store;
pub mod submission;
pub mod team;
pub mod text;
