use vstd::prelude::*;

verus! {

/// What a link operation can fail with.
#[derive(Debug, Clone, Copy, PartialEq, Eq, Structural)]
pub enum Error {
    /// A channel write failed and the link reported this error code.
    ChannelWriteFailed { code: i32 },
    /// A channel write failed and the link reported no specific error.
    Unknown,
    /// A length or a count does not fit the wire's 32-bit signed field.
    SizeOverflow,
    /// The next token on the link is not of the kind that was asked for.
    UnexpectedToken,
    /// Nothing is left to read on the link.
    NoData,
}

impl Error {
    /// The link's error code, where the failure carries one.
    pub fn code(&self) -> (r: Option<i32>)
        ensures
            r == (match *self {
                Error::ChannelWriteFailed { code } => Some(code),
                _ => None,
            }),
    {
        match self {
            Error::ChannelWriteFailed { code } => Some(*code),
            _ => None,
        }
    }
}

} // verus!
