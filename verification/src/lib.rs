//! The decision core of a community chat bot: activity points and levels,
//! welcome messages for new members, and two text commands.
//!
//! Nothing here talks to a chat gateway or a database. Each function takes
//! what the caller has read and returns what the caller is to do next.

pub mod activity;
pub mod commands;
pub mod dispatcher;
pub mod greeter;
pub mod notice;
pub mod progress;
pub mod reply;
pub mod store;
pub mod text;
