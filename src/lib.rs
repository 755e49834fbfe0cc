//! A typed streaming encoder for tagged, nested, variable-arity expression
//! data, written onto an in-memory loopback link that can also be read back.

pub mod error;
pub mod get;
pub mod laws;
pub mod link;
pub mod put;
pub mod shape;
pub mod token;

pub use error::Error;
pub use link::{Link, LinkState};
pub use token::{WireToken, WSTKFUNC};
