//! A bridge from the `defmt` logging facility to any byte-oriented transport.
//!
//! A [`GlobalSerialLogger`] holds the one transport that log frames go to, the
//! flag that keeps frames from nesting, and the encoder that turns a frame's
//! payload into wire bytes. Every operation on it is verified against a
//! mathematical model of the logger ([`LoggerState`]) and of what its
//! transport has been handed ([`Wire`]).

pub mod codec;
pub mod laws;
pub mod logger;
pub mod transport;

pub use logger::defmt_serial;
pub use logger::release;
pub use logger::GlobalSerialLogger;
pub use logger::LoggerState;
pub use transport::write_serial;
pub use transport::Buffer;
pub use transport::EraseWrite;
pub use transport::Wire;
