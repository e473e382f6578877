//! Caller-chosen correlation identifiers.

use vstd::prelude::*;
use vstd::std_specs::convert::FromSpec;

verus! {

/// An opaque identifier a caller attaches to a registration. The
/// kernel hands the value back, bit for bit, with every event that
/// registration produces. Any integer is legal, duplicates included.
#[derive(Clone, Copy, PartialEq, Eq, Structural)]
pub struct Token(pub usize);

impl From<usize> for Token {
    fn from(value: usize) -> (t: Token) {
        Token(value)
    }
}

impl vstd::std_specs::convert::FromSpecImpl<usize> for Token {
    open spec fn obeys_from_spec() -> bool {
        true
    }

    open spec fn from_spec(v: usize) -> Token {
        Token(v)
    }
}

impl From<Token> for usize {
    fn from(value: Token) -> (n: usize) {
        value.0
    }
}

impl vstd::std_specs::convert::FromSpecImpl<Token> for usize {
    open spec fn obeys_from_spec() -> bool {
        true
    }

    open spec fn from_spec(v: Token) -> usize {
        v.0
    }
}

/// Round-trip law: a token built from an integer converts back to
/// that integer, exactly.
pub proof fn lemma_token_round_trip(n: usize)
    ensures
        <usize as FromSpec<Token>>::from_spec(<Token as FromSpec<usize>>::from_spec(n)) == n,
{
}

} // verus!
