use std::collections::VecDeque;
use vstd::prelude::*;

use crate::error::Error;
use crate::token::{Token, WireToken};

verus! {

/// What a link holds: the tokens written and not yet read, in order, and
/// whether the channel has been shut down, with the error it then reports.
pub struct LinkState {
    pub pending: Seq<WireToken>,
    pub closed: bool,
    pub error_code: Option<i32>,
}

/// The error that a failed write on a link in state `st` reports: the link's
/// own error where it has one, else an unknown failure.
pub open spec fn link_error(st: LinkState) -> Error {
    match st.error_code {
        Some(code) => Error::ChannelWriteFailed { code },
        None => Error::Unknown,
    }
}

/// Writing `toks` onto a link in state `st`: every write fails on a closed
/// link, which is then left as it was; an open link takes the tokens in order.
pub open spec fn sent(st: LinkState, toks: Seq<WireToken>) -> (LinkState, Result<(), Error>) {
    if st.closed {
        (st, Err(link_error(st)))
    } else {
        (LinkState { pending: st.pending + toks, ..st }, Ok(()))
    }
}

/// Reading one token from a link in state `st`, where `v` is what the oldest
/// pending token gives to the reader, if it is of the kind asked for: that
/// token is then taken; otherwise it is left in place.
pub open spec fn received<T>(st: LinkState, v: Option<T>) -> (LinkState, Result<T, Error>) {
    if st.pending.len() == 0 {
        (st, Err(Error::NoData))
    } else {
        match v {
            Some(x) => (LinkState { pending: st.pending.drop_first(), ..st }, Ok(x)),
            None => (st, Err(Error::UnexpectedToken)),
        }
    }
}

/// A loopback link: what is put on it can be read back from it, in order.
pub struct Link {
    queue: VecDeque<Token>,
    closed: bool,
    error_code: Option<i32>,
}

impl View for Link {
    type V = LinkState;

    closed spec fn view(&self) -> LinkState {
        LinkState {
            pending: self.queue@.map_values(|t: Token| t@),
            closed: self.closed,
            error_code: self.error_code,
        }
    }
}

impl Link {
    /// An open link with nothing on it.
    pub fn new_loopback() -> (r: Link)
        ensures
            r@ == (LinkState { pending: Seq::empty(), closed: false, error_code: None }),
    {
        let r = Link { queue: VecDeque::new(), closed: false, error_code: None };
        assert(r@.pending =~= Seq::empty());
        r
    }

    /// Shuts the channel down: every later write fails and reports `code`, or
    /// an unknown failure where `code` is `None`. What is pending can still be
    /// read.
    pub fn close(&mut self, code: Option<i32>)
        ensures
            final(self)@ == (LinkState { closed: true, error_code: code, ..old(self)@ }),
    {
        self.closed = true;
        self.error_code = code;
    }

    /// The error that a failed write on this link reports.
    pub fn error_or_unknown(&self) -> (r: Error)
        ensures
            r == link_error(self@),
    {
        match self.error_code {
            Some(code) => Error::ChannelWriteFailed { code },
            None => Error::Unknown,
        }
    }

    /// One channel write of one token.
    pub(crate) fn send(&mut self, t: Token) -> (r: Result<(), Error>)
        ensures
            (final(self)@, r) == sent(old(self)@, seq![t@]),
    {
        if self.closed {
            return Err(self.error_or_unknown());
        }
        let ghost before = self.queue@;
        self.queue.push_back(t);
        assert(self.queue@.map_values(|t: Token| t@) =~= before.map_values(|t: Token| t@) + seq![
            t@,
        ]);
        Ok(())
    }

    /// The oldest pending token, left in place.
    pub(crate) fn peek(&self) -> (r: Option<&Token>)
        ensures
            self@.pending.len() == 0 ==> r is None,
            self@.pending.len() > 0 ==> r is Some && r->0@ == self@.pending[0],
    {
        if self.queue.len() == 0 {
            None
        } else {
            Some(&self.queue[0])
        }
    }

    /// Drops the oldest pending token.
    pub(crate) fn advance(&mut self)
        requires
            old(self)@.pending.len() > 0,
        ensures
            final(self)@ == (LinkState { pending: old(self)@.pending.drop_first(), ..old(self)@ }),
    {
        let ghost before = self.queue@;
        let _ = self.queue.pop_front();
        assert(self.queue@.map_values(|t: Token| t@) =~= before.map_values(
            |t: Token| t@,
        ).drop_first());
    }
}

} // verus!
