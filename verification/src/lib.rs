//! Decision logic of a community-management bot: role registry, interaction
//! routing, ticket channels, scheduled maintenance.

pub mod config;
pub mod interaction;
pub mod prompts;
pub mod purge;
pub mod registry;
pub mod schedule;
pub mod text;
pub mod ticket;
pub mod voice;
