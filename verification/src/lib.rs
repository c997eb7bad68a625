//! A multi-transport client core for talking to a container daemon:
//! request construction, response interpretation, body streaming and the
//! multiplexed TTY frame protocol.

pub mod archive;
pub mod buffer;
pub mod clients;
pub mod errors;
pub mod http_client;
pub mod options;
pub mod stream;
pub mod text;
pub mod tty;

pub use clients::Docker;
pub use errors::Error;
