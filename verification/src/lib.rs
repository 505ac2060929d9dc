//! Launch environment and webhook notifications for a dedicated game server.
//!
//! The crate decides and leaves the doing to its caller. The caller hands it the
//! configuration of the process as a [`utils::environment::Config`], says which
//! paths exist, starts the process with the variables it is given, posts the
//! requests it is given, and hands back the answers. Of the world the crate
//! itself reads the clock and nothing else.

pub mod constants;
pub mod mods;
pub mod notifications;
pub mod utils;
