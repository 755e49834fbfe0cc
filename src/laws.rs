use vstd::prelude::*;

use crate::error::Error;
use crate::get::{as_arg_count, as_integer, as_real, as_symbol, as_type};
use crate::link::{received, sent, LinkState};
use crate::put::{function_tokens, put_function_spec, put_str_spec, put_symbol_spec};
use crate::token::{WireToken, WIRE_MAX, WSTKFUNC};

verus! {

/// A link that is open and has nothing pending.
pub open spec fn fresh(st: LinkState) -> bool {
    !st.closed && st.pending.len() == 0
}

/// An integer, or a real's bit pattern, put on a fresh link is read back
/// unchanged, and the link is left as it was.
pub proof fn round_trip_scalar(st: LinkState, v: i64, bits: u64)
    requires
        fresh(st),
    ensures
        ({
            let (w, put) = sent(st, seq![WireToken::Integer(v)]);
            put is Ok && received(w, as_integer(w.pending[0])) == (st, Ok::<i64, Error>(v))
        }),
        ({
            let (w, put) = sent(st, seq![WireToken::Real(bits)]);
            put is Ok && received(w, as_real(w.pending[0])) == (st, Ok::<u64, Error>(bits))
        }),
{
    assert(sent(st, seq![WireToken::Integer(v)]).0.pending.drop_first() =~= st.pending);
    assert(sent(st, seq![WireToken::Real(bits)]).0.pending.drop_first() =~= st.pending);
}

/// A function opened on a fresh link with a head and a count, followed by
/// one real argument, is read back as the function tag, the count, the head
/// as a symbol and the real, after which nothing is pending.
pub proof fn round_trip_function(st: LinkState, head: Seq<u8>, count: usize, arg: u64)
    requires
        fresh(st),
        head.len() <= WIRE_MAX,
        count <= WIRE_MAX,
    ensures
        ({
            let (w1, put_head) = put_function_spec(st, Some(head), count);
            let (w2, put_arg) = sent(w1, seq![WireToken::Real(arg)]);
            let (w3, tag) = received(w2, as_type(w2.pending[0]));
            let (w4, n) = received(w3, as_arg_count(w3.pending[0]));
            let (w5, name) = received(w4, as_symbol(w4.pending[0]));
            let (w6, x) = received(w5, as_real(w5.pending[0]));
            &&& put_head is Ok
            &&& put_arg is Ok
            &&& tag == Ok::<i32, Error>(WSTKFUNC)
            &&& n == Ok::<i32, Error>(count as i32)
            &&& name == Ok::<Seq<u8>, Error>(head)
            &&& x == Ok::<u64, Error>(arg)
            &&& w6 == st
        }),
{
    let w1 = put_function_spec(st, Some(head), count).0;
    let w2 = sent(w1, seq![WireToken::Real(arg)]).0;
    let toks = seq![
        WireToken::Type(WSTKFUNC),
        WireToken::ArgCount(count as i32),
        WireToken::Symbol(head),
        WireToken::Real(arg),
    ];
    assert(w2.pending =~= toks);
    assert(toks.drop_first().drop_first().drop_first().drop_first() =~= st.pending);
}

/// A count, a string or a head name too long for the wire's 32-bit signed
/// fields is refused with a size overflow, and nothing is written.
pub proof fn overflow_guard(st: LinkState, head: Option<Seq<u8>>, count: usize, text: Seq<u8>)
    ensures
        count > WIRE_MAX ==> put_function_spec(st, head, count) == (st, Err::<(), Error>(
            Error::SizeOverflow,
        )),
        head is Some && head->0.len() > WIRE_MAX ==> put_function_spec(st, head, count) == (
            st,
            Err::<(), Error>(Error::SizeOverflow),
        ),
        text.len() > WIRE_MAX ==> put_str_spec(st, text) == (st, Err::<(), Error>(
            Error::SizeOverflow,
        )),
        text.len() > WIRE_MAX ==> put_symbol_spec(st, text) == (st, Err::<(), Error>(
            Error::SizeOverflow,
        )),
{
}

/// A function opened without a head writes its tag and count and no symbol:
/// so a headless function of one argument, then a function `f` of one
/// argument, then the strings `a` and `b`, put on an open link, write the
/// application `f[a][b]` in prefix order.
pub proof fn anonymous_head(st: LinkState, f: Seq<u8>, a: Seq<u8>, b: Seq<u8>)
    requires
        !st.closed,
        f.len() <= WIRE_MAX,
        a.len() <= WIRE_MAX,
        b.len() <= WIRE_MAX,
    ensures
        function_tokens(None, 1) == seq![WireToken::Type(WSTKFUNC), WireToken::ArgCount(1)],
        ({
            let w1 = put_function_spec(st, None, 1).0;
            let w2 = put_function_spec(w1, Some(f), 1).0;
            let w3 = put_str_spec(w2, a).0;
            let w4 = put_str_spec(w3, b).0;
            w4.pending == st.pending + seq![
                WireToken::Type(WSTKFUNC),
                WireToken::ArgCount(1),
                WireToken::Type(WSTKFUNC),
                WireToken::ArgCount(1),
                WireToken::Symbol(f),
                WireToken::Str(a),
                WireToken::Str(b),
            ]
        }),
{
    assert(function_tokens(None, 1) =~= seq![
        WireToken::Type(WSTKFUNC),
        WireToken::ArgCount(1),
    ]);
    let w1 = put_function_spec(st, None, 1).0;
    let w2 = put_function_spec(w1, Some(f), 1).0;
    let w3 = put_str_spec(w2, a).0;
    let w4 = put_str_spec(w3, b).0;
    assert(w4.pending =~= st.pending + seq![
        WireToken::Type(WSTKFUNC),
        WireToken::ArgCount(1),
        WireToken::Type(WSTKFUNC),
        WireToken::ArgCount(1),
        WireToken::Symbol(f),
        WireToken::Str(a),
        WireToken::Str(b),
    ]);
}

} // verus!
