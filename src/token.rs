use vstd::prelude::*;

verus! {

/// The wire's type tag that opens a function token.
pub const WSTKFUNC: i32 = 70;

/// The largest length or count that the wire's 32-bit signed fields carry.
pub const WIRE_MAX: usize = 0x7fff_ffff;

/// A token as the wire carries it: a type tag or an argument count, an atom,
/// or a rectangular array in row-major order. Reals travel as their IEEE-754
/// bit patterns.
pub enum WireToken {
    Type(i32),
    ArgCount(i32),
    Str(Seq<u8>),
    Symbol(Seq<u8>),
    Integer(i64),
    Real(u64),
    IntegerArray(Seq<i64>, Seq<i32>),
    RealArray(Seq<u64>, Seq<i32>),
}

/// A token held by a link.
pub enum Token {
    Type(i32),
    ArgCount(i32),
    Str(Vec<u8>),
    Symbol(Vec<u8>),
    Integer(i64),
    Real(u64),
    IntegerArray(Vec<i64>, Vec<i32>),
    RealArray(Vec<u64>, Vec<i32>),
}

impl View for Token {
    type V = WireToken;

    open spec fn view(&self) -> WireToken {
        match self {
            Token::Type(t) => WireToken::Type(*t),
            Token::ArgCount(c) => WireToken::ArgCount(*c),
            Token::Str(b) => WireToken::Str(b@),
            Token::Symbol(b) => WireToken::Symbol(b@),
            Token::Integer(v) => WireToken::Integer(*v),
            Token::Real(v) => WireToken::Real(*v),
            Token::IntegerArray(data, dims) => WireToken::IntegerArray(data@, dims@),
            Token::RealArray(data, dims) => WireToken::RealArray(data@, dims@),
        }
    }
}

/// Each dimension as the wire's 32-bit signed count.
pub open spec fn dims_on_wire(dims: Seq<usize>) -> Seq<i32> {
    dims.map_values(|d: usize| d as i32)
}

/// Every dimension fits the wire's 32-bit signed count.
pub open spec fn dims_fit(dims: Seq<usize>) -> bool {
    forall|i: int| 0 <= i < dims.len() ==> dims[i] <= WIRE_MAX
}

/// The number of elements of a rectangular array of the given shape.
pub open spec fn product(dims: Seq<usize>) -> int
    decreases dims.len(),
{
    if dims.len() == 0 {
        1
    } else {
        product(dims.drop_last()) * dims.last()
    }
}

/// Converts each dimension to the wire's 32-bit signed count.
pub(crate) fn dims_to_wire(dims: &[usize]) -> (r: Vec<i32>)
    requires
        dims_fit(dims@),
    ensures
        r@ == dims_on_wire(dims@),
{
    let mut r: Vec<i32> = Vec::new();
    let mut i: usize = 0;
    while i < dims.len()
        invariant
            i <= dims@.len(),
            dims_fit(dims@),
            r@ =~= dims_on_wire(dims@.subrange(0, i as int)),
        decreases dims.len() - i,
    {
        r.push(dims[i] as i32);
        i = i + 1;
        assert(dims@.subrange(0, i as int).drop_last() =~= dims@.subrange(0, i - 1 as int));
    }
    assert(dims@.subrange(0, i as int) =~= dims@);
    r
}

} // verus!
