//! The command logic of the Merlin chat bot: how a message becomes a command
//! line, which commands exist and whether a sender may run them, how their
//! help and permission pages read, and every reply the commands compose.

pub mod args;
pub mod cmd;
pub mod config;
pub mod context_flows;
pub mod contexts;
pub mod deletion_flow;
pub mod flows;
pub mod error;
pub mod format;
pub mod group_flows;
pub mod groupmod_flow;
pub mod groups;
pub mod handlers;
pub mod help;
pub mod info;
pub mod listing_flows;
pub mod lookup_flows;
pub mod org;
pub mod perms;
pub mod printer;
pub mod registry;
pub mod room_flows;
pub mod text;
