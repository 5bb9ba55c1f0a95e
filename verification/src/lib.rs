//! Client-side protocol core for driving an mpv player over its newline-delimited
//! JSON control channel.
//!
//! The crate performs no I/O of its own. It frames outbound commands, splits the
//! inbound byte stream into lines, classifies each line as an event or a result,
//! correlates results with requests, and decides what the owner of the socket has
//! to do next. The owner of the socket reads, writes and waits as told.

pub mod command;
pub mod interactive;
pub mod io;
pub mod json;
pub mod link;
pub mod model;
pub mod text;
pub mod response_buffer;
