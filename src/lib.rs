//! Client side of the git smart protocol over HTTP, with the page arena used
//! for short-lived buffers. The HTTP layer is a verified state machine: it
//! decides which requests to open, which bytes to send and how to treat each
//! response, and hands the actual socket work to its caller as commands.

pub mod error;
pub mod pool;
pub mod transports;
