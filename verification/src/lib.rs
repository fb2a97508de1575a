//! A client library for a binary control protocol spoken by a Bluetooth
//! audio device over an RFCOMM stream: a byte-exact framing, escaping and
//! checksum codec for typed command and notification messages, and the
//! decision logic of a duplex transport that multiplexes application sends
//! with protocol-mandated acknowledgments onto one ordered outbound path.

pub mod completion;
pub mod from_repl;
pub mod message;
pub mod serializable;
pub mod transport;
