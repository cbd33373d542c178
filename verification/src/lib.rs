//! The decisions of Yamble, a chat bot that plays sounds in voice channels.
//!
//! The bot answers to commands that users send through the chat platform.
//! This library holds everything that is decided on the way from a command
//! to its answer, and nothing that touches the outside world:
//!
//! - [`cmd`] is the registry of commands: what is published to the platform,
//!   the lookup by name, the parsing of parameters, and one module for each
//!   command's handler.
//! - [`discord`] is one invocation's reply channel, which hands out at most
//!   one initial response and then followups.
//! - [`session`] is the policy by which a guild's voice session is entered,
//!   switched and left.
//! - [`resolve`] turns what a user asks to hear into the bytes to play,
//!   through a cache on disk.
//! - [`effect`] is the vocabulary between a handler and whoever drives it:
//!   a handler is advanced one step at a time, each step taking the answer
//!   to the action that the step before asked for.
//! - [`run`] and [`cache`] state what holds of whole runs.
//!
//! The program around the library performs the actions: it sends, joins,
//! downloads, reads and writes, and reports back how each of them went.

pub mod cache;
pub mod cmd;
pub mod db;
pub mod discord;
pub mod effect;
pub mod error;
pub mod invocation;
pub mod mention;
pub mod queue;
pub mod resolve;
pub mod run;
pub mod session;
pub mod text;
