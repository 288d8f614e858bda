//! Core of a chat-platform moderation bot: a registry of named command
//! handlers with their platform-facing schemas, and the ban command's
//! authorization and sequencing logic, written as a state machine over plain
//! values so that every decision is specified and proved. The surrounding
//! process (gateway session, transport, configuration files) drives these
//! types from outside.

pub mod ban;
pub mod bot;
pub mod commands;
pub mod config;
pub mod hash_string;
pub mod registry;
pub mod schema;
