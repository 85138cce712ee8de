//! Values sealed for one recipient, and revealed in batches to whoever
//! passes a human-verification check.
//!
//! `codec` turns bytes into hexadecimal text and back. `keypair` holds the
//! recipient's key pair, and `sealedbox` seals values for it and opens them.
//! `gate` decides, step by step, what becomes of a request to reveal a batch
//! of sealed values; `server` answers the requests that need no
//! verification, and `http` finds the handler of a request and shapes the
//! replies. Nothing here reads a file or a socket: the program around this
//! library does, and hands over plain values.

pub mod codec;
pub mod error;
pub mod gate;
pub mod http;
pub mod keypair;
pub mod sealedbox;
pub mod server;
