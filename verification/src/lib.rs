//! Protocol engine for reprogramming an external serial flash chip through a
//! command-executing stub injected into a target microcontroller's RAM.
//!
//! The engine itself never touches hardware: every interaction with target
//! memory is expressed as a value (an action to perform, an event observed),
//! so the framing, handshake, chunking and timeout rules can all be verified.

pub mod codec;
pub mod controller;
pub mod doorbell;
pub mod inject;
pub mod layout;
pub mod transfer;

pub use codec::{Command, Error, Response, Xflash};
