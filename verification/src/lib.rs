//! Client-side core of a line-delimited instrument-control protocol:
//! each command and each response is one text line, terminated on the
//! wire by CR-LF.  This crate holds the verified parts — the connection
//! state machine and the line framing — while the socket I/O itself is
//! left to an unverified driver built on top of these functions.

pub mod device;
pub mod error;
pub mod frame;

