//! A length-prefixed binary framing protocol between a background daemon and
//! one controller, with the decisions of the daemon's single-connection loop.
use vstd::prelude::*;

pub mod error;
pub mod framing;
pub mod message;
pub mod server;
