use vstd::prelude::*;
use vstd::slice::slice_to_vec;
use vstd::string::StringSliceAdditionalSpecFns;

use crate::error::Error;
use crate::link::{sent, Link, LinkState};
use crate::token::{
    dims_fit, dims_on_wire, dims_to_wire, product, Token, WireToken, WIRE_MAX, WSTKFUNC,
};

verus! {

/// The text holds no NUL byte: the transport takes text as NUL-terminated.
pub open spec fn no_nul(bytes: Seq<u8>) -> bool {
    !bytes.contains(0u8)
}

/// The UTF-8 bytes of an optional head.
pub open spec fn head_bytes(head: Option<&str>) -> Option<Seq<u8>> {
    match head {
        Some(h) => Some(h.spec_bytes()),
        None => None,
    }
}

/// Putting a string whose UTF-8 bytes are `bytes`.
pub open spec fn put_str_spec(st: LinkState, bytes: Seq<u8>) -> (LinkState, Result<(), Error>) {
    if bytes.len() > WIRE_MAX {
        (st, Err(Error::SizeOverflow))
    } else {
        sent(st, seq![WireToken::Str(bytes)])
    }
}

/// Putting a symbol whose UTF-8 name is `bytes`.
pub open spec fn put_symbol_spec(st: LinkState, bytes: Seq<u8>) -> (LinkState, Result<(), Error>) {
    if bytes.len() > WIRE_MAX {
        (st, Err(Error::SizeOverflow))
    } else {
        sent(st, seq![WireToken::Symbol(bytes)])
    }
}

/// Putting an argument count.
pub open spec fn put_arg_count_spec(st: LinkState, count: usize) -> (LinkState, Result<(), Error>) {
    if count > WIRE_MAX {
        (st, Err(Error::SizeOverflow))
    } else {
        sent(st, seq![WireToken::ArgCount(count as i32)])
    }
}

/// The tokens that open a function of `count` arguments: its tag, its count,
/// and its head as a symbol where it has one.
pub open spec fn function_tokens(head: Option<Seq<u8>>, count: usize) -> Seq<WireToken> {
    seq![WireToken::Type(WSTKFUNC), WireToken::ArgCount(count as i32)] + match head {
        Some(h) => seq![WireToken::Symbol(h)],
        None => Seq::empty(),
    }
}

/// Opening a function: a count or a head name too long for the wire is
/// refused before anything is written.
pub open spec fn put_function_spec(st: LinkState, head: Option<Seq<u8>>, count: usize) -> (
    LinkState,
    Result<(), Error>,
) {
    if count > WIRE_MAX || (head is Some && head->0.len() > WIRE_MAX) {
        (st, Err(Error::SizeOverflow))
    } else {
        sent(st, function_tokens(head, count))
    }
}

/// Copies `s`'s UTF-8 bytes, or refuses where their count does not fit the
/// wire's length field.
fn text_bytes(s: &str) -> (r: Result<Vec<u8>, Error>)
    ensures
        s.spec_bytes().len() > WIRE_MAX ==> r == Err::<Vec<u8>, Error>(Error::SizeOverflow),
        s.spec_bytes().len() <= WIRE_MAX ==> r is Ok && r->Ok_0@ == s.spec_bytes(),
{
    let bytes = s.as_bytes();
    if bytes.len() > WIRE_MAX {
        Err(Error::SizeOverflow)
    } else {
        Ok(slice_to_vec(bytes))
    }
}

impl Link {
    /// Writes a single type tag with no payload.
    pub fn put_raw_type(&mut self, type_: i32) -> (r: Result<(), Error>)
        ensures
            (final(self)@, r) == sent(old(self)@, seq![WireToken::Type(type_)]),
    {
        self.send(Token::Type(type_))
    }

    /// Writes `string` as a UTF-8 string token.
    pub fn put_str(&mut self, string: &str) -> (r: Result<(), Error>)
        requires
            no_nul(string.spec_bytes()),
        ensures
            (final(self)@, r) == put_str_spec(old(self)@, string.spec_bytes()),
    {
        match text_bytes(string) {
            Ok(bytes) => self.send(Token::Str(bytes)),
            Err(e) => Err(e),
        }
    }

    /// Writes `symbol` as a UTF-8 symbol token.
    pub fn put_symbol(&mut self, symbol: &str) -> (r: Result<(), Error>)
        requires
            no_nul(symbol.spec_bytes()),
        ensures
            (final(self)@, r) == put_symbol_spec(old(self)@, symbol.spec_bytes()),
    {
        match text_bytes(symbol) {
            Ok(bytes) => self.send(Token::Symbol(bytes)),
            Err(e) => Err(e),
        }
    }

    /// Begins a function of `count` arguments, named by `head`; with no head,
    /// the function's head is whatever expression is put next.
    pub fn put_function(&mut self, head: Option<&str>, count: usize) -> (r: Result<(), Error>)
        requires
            head is Some ==> no_nul(head->0.spec_bytes()),
        ensures
            (final(self)@, r) == put_function_spec(old(self)@, head_bytes(head), count),
    {
        if count > WIRE_MAX {
            return Err(Error::SizeOverflow);
        }
        if let Some(h) = head {
            if h.as_bytes().len() > WIRE_MAX {
                return Err(Error::SizeOverflow);
            }
        }
        let ghost st = self@;
        match self.put_raw_type(WSTKFUNC) {
            Ok(()) => {},
            Err(e) => return Err(e),
        }
        match self.put_arg_count(count) {
            Ok(()) => {},
            Err(e) => return Err(e),
        }
        if let Some(h) = head {
            match self.put_symbol(h) {
                Ok(()) => {},
                Err(e) => return Err(e),
            }
        }
        assert(self@.pending =~= st.pending + function_tokens(head_bytes(head), count));
        Ok(())
    }

    /// Writes an argument count.
    pub fn put_arg_count(&mut self, count: usize) -> (r: Result<(), Error>)
        ensures
            (final(self)@, r) == put_arg_count_spec(old(self)@, count),
    {
        if count > WIRE_MAX {
            return Err(Error::SizeOverflow);
        }
        self.send(Token::ArgCount(count as i32))
    }

    /// Writes a 64-bit signed integer.
    pub fn put_i64(&mut self, value: i64) -> (r: Result<(), Error>)
        ensures
            (final(self)@, r) == sent(old(self)@, seq![WireToken::Integer(value)]),
    {
        self.send(Token::Integer(value))
    }

    /// Writes a 64-bit real, given by its IEEE-754 bit pattern, which the
    /// wire carries unchanged (NaN and the infinities included).
    pub fn put_f64(&mut self, bits: u64) -> (r: Result<(), Error>)
        ensures
            (final(self)@, r) == sent(old(self)@, seq![WireToken::Real(bits)]),
    {
        self.send(Token::Real(bits))
    }

    /// Writes a rectangular array of 64-bit integers, row-major, whose shape
    /// is `dimensions`.
    pub fn put_i64_array(&mut self, data: &[i64], dimensions: &[usize]) -> (r: Result<(), Error>)
        requires
            product(dimensions@) == data@.len(),
            dims_fit(dimensions@),
        ensures
            (final(self)@, r) == sent(
                old(self)@,
                seq![WireToken::IntegerArray(data@, dims_on_wire(dimensions@))],
            ),
    {
        let dims = dims_to_wire(dimensions);
        self.send(Token::IntegerArray(slice_to_vec(data), dims))
    }

    /// Writes a rectangular array of 64-bit reals, given by their IEEE-754
    /// bit patterns, row-major, whose shape is `dimensions`.
    pub fn put_f64_array(&mut self, data: &[u64], dimensions: &[usize]) -> (r: Result<(), Error>)
        requires
            product(dimensions@) == data@.len(),
            dims_fit(dimensions@),
        ensures
            (final(self)@, r) == sent(
                old(self)@,
                seq![WireToken::RealArray(data@, dims_on_wire(dimensions@))],
            ),
    {
        let dims = dims_to_wire(dimensions);
        self.send(Token::RealArray(slice_to_vec(data), dims))
    }
}

} // verus!
