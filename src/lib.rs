//! Core of a dedicated game-server manager: resolving and addressing plugin
//! releases, driving the depot download tool, choosing server ports, and
//! supervising a server's console as a stream of lines.

pub mod depot;
pub mod error;
pub mod game;
pub mod listing;
pub mod platform;
pub mod plugins;
pub mod ports;
pub mod supervisor;
pub mod terminal;
pub mod text;
