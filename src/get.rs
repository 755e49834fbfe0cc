use vstd::prelude::*;
use vstd::slice::slice_to_vec;

use crate::error::Error;
use crate::link::{received, Link};
use crate::token::{Token, WireToken};

verus! {

/// The tag of a type-tag token.
pub open spec fn as_type(t: WireToken) -> Option<i32> {
    match t {
        WireToken::Type(x) => Some(x),
        _ => None,
    }
}

/// The count of an argument-count token.
pub open spec fn as_arg_count(t: WireToken) -> Option<i32> {
    match t {
        WireToken::ArgCount(x) => Some(x),
        _ => None,
    }
}

/// The bytes of a string token.
pub open spec fn as_str(t: WireToken) -> Option<Seq<u8>> {
    match t {
        WireToken::Str(b) => Some(b),
        _ => None,
    }
}

/// The name of a symbol token.
pub open spec fn as_symbol(t: WireToken) -> Option<Seq<u8>> {
    match t {
        WireToken::Symbol(b) => Some(b),
        _ => None,
    }
}

/// The value of an integer token.
pub open spec fn as_integer(t: WireToken) -> Option<i64> {
    match t {
        WireToken::Integer(x) => Some(x),
        _ => None,
    }
}

/// The bit pattern of a real token.
pub open spec fn as_real(t: WireToken) -> Option<u64> {
    match t {
        WireToken::Real(x) => Some(x),
        _ => None,
    }
}

/// The data and the dimensions of an integer array token.
pub open spec fn as_integer_array(t: WireToken) -> Option<(Seq<i64>, Seq<i32>)> {
    match t {
        WireToken::IntegerArray(data, dims) => Some((data, dims)),
        _ => None,
    }
}

/// The data and the dimensions of a real array token.
pub open spec fn as_real_array(t: WireToken) -> Option<(Seq<u64>, Seq<i32>)> {
    match t {
        WireToken::RealArray(data, dims) => Some((data, dims)),
        _ => None,
    }
}

/// A read's result, with the value taken to its view.
pub open spec fn viewed<A: View>(r: Result<A, Error>) -> Result<A::V, Error> {
    match r {
        Ok(v) => Ok(v@),
        Err(e) => Err(e),
    }
}

impl Link {
    /// Reads a type tag.
    pub fn get_raw_type(&mut self) -> (r: Result<i32, Error>)
        ensures
            (final(self)@, r) == received(old(self)@, as_type(old(self)@.pending[0])),
    {
        let v = match self.peek() {
            None => return Err(Error::NoData),
            Some(Token::Type(x)) => *x,
            Some(_) => return Err(Error::UnexpectedToken),
        };
        self.advance();
        Ok(v)
    }

    /// Reads an argument count.
    pub fn get_arg_count(&mut self) -> (r: Result<i32, Error>)
        ensures
            (final(self)@, r) == received(old(self)@, as_arg_count(old(self)@.pending[0])),
    {
        let v = match self.peek() {
            None => return Err(Error::NoData),
            Some(Token::ArgCount(x)) => *x,
            Some(_) => return Err(Error::UnexpectedToken),
        };
        self.advance();
        Ok(v)
    }

    /// Reads a string as its UTF-8 bytes.
    pub fn get_str(&mut self) -> (r: Result<Vec<u8>, Error>)
        ensures
            (final(self)@, viewed(r)) == received(
                old(self)@,
                as_str(old(self)@.pending[0]),
            ),
    {
        let v = match self.peek() {
            None => return Err(Error::NoData),
            Some(Token::Str(b)) => slice_to_vec(b.as_slice()),
            Some(_) => return Err(Error::UnexpectedToken),
        };
        self.advance();
        Ok(v)
    }

    /// Reads a symbol as the UTF-8 bytes of its name.
    pub fn get_symbol(&mut self) -> (r: Result<Vec<u8>, Error>)
        ensures
            (final(self)@, viewed(r)) == received(
                old(self)@,
                as_symbol(old(self)@.pending[0]),
            ),
    {
        let v = match self.peek() {
            None => return Err(Error::NoData),
            Some(Token::Symbol(b)) => slice_to_vec(b.as_slice()),
            Some(_) => return Err(Error::UnexpectedToken),
        };
        self.advance();
        Ok(v)
    }

    /// Reads a 64-bit signed integer.
    pub fn get_i64(&mut self) -> (r: Result<i64, Error>)
        ensures
            (final(self)@, r) == received(old(self)@, as_integer(old(self)@.pending[0])),
    {
        let v = match self.peek() {
            None => return Err(Error::NoData),
            Some(Token::Integer(x)) => *x,
            Some(_) => return Err(Error::UnexpectedToken),
        };
        self.advance();
        Ok(v)
    }

    /// Reads a 64-bit real as its IEEE-754 bit pattern.
    pub fn get_f64(&mut self) -> (r: Result<u64, Error>)
        ensures
            (final(self)@, r) == received(old(self)@, as_real(old(self)@.pending[0])),
    {
        let v = match self.peek() {
            None => return Err(Error::NoData),
            Some(Token::Real(x)) => *x,
            Some(_) => return Err(Error::UnexpectedToken),
        };
        self.advance();
        Ok(v)
    }

    /// Reads an integer array as its row-major data and its dimensions.
    pub fn get_i64_array(&mut self) -> (r: Result<(Vec<i64>, Vec<i32>), Error>)
        ensures
            (final(self)@, viewed(r)) == received(
                old(self)@,
                as_integer_array(old(self)@.pending[0]),
            ),
    {
        let v = match self.peek() {
            None => return Err(Error::NoData),
            Some(Token::IntegerArray(data, dims)) => (
                slice_to_vec(data.as_slice()),
                slice_to_vec(dims.as_slice()),
            ),
            Some(_) => return Err(Error::UnexpectedToken),
        };
        self.advance();
        Ok(v)
    }

    /// Reads a real array as the bit patterns of its row-major data and its
    /// dimensions.
    pub fn get_f64_array(&mut self) -> (r: Result<(Vec<u64>, Vec<i32>), Error>)
        ensures
            (final(self)@, viewed(r)) == received(
                old(self)@,
                as_real_array(old(self)@.pending[0]),
            ),
    {
        let v = match self.peek() {
            None => return Err(Error::NoData),
            Some(Token::RealArray(data, dims)) => (
                slice_to_vec(data.as_slice()),
                slice_to_vec(dims.as_slice()),
            ),
            Some(_) => return Err(Error::UnexpectedToken),
        };
        self.advance();
        Ok(v)
    }
}

} // verus!
