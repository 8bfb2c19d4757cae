//! The greeting formatter: a fixed template wrapped around one input string.

use vstd::prelude::*;
use vstd::string::*;

verus! {

/// The greeting built from `name`: the fixed prefix, the name verbatim,
/// and the fixed suffix. No validation and no escaping.
pub open spec fn spec_greet(name: Seq<char>) -> Seq<char> {
    "Hello, "@ + name + "! You've been greeted from Rust!"@
}

/// Formats the fixed greeting around `name`.
pub fn greet(name: &str) -> (r: String)
    ensures
        r@ == spec_greet(name@),
{
    let mut s = String::from_str("Hello, ");
    s.append(name);
    s.append("! You've been greeted from Rust!");
    s
}

/// The greeting is a pure function of the name: equal names give
/// equal greetings.
pub proof fn lemma_greet_deterministic(a: Seq<char>, b: Seq<char>)
    requires
        a == b,
    ensures
        spec_greet(a) == spec_greet(b),
{
}

/// The greeting performs no escaping: the name appears unmodified in the
/// output, between a prefix of seven characters and a suffix of
/// thirty-two, whatever characters the name holds.
pub proof fn lemma_greet_passes_name_through(name: Seq<char>)
    ensures
        spec_greet(name).len() == name.len() + 39,
        spec_greet(name).subrange(7, 7 + name.len() as int) == name,
{
    reveal_strlit("Hello, ");
    reveal_strlit("! You've been greeted from Rust!");
    assert(spec_greet(name).subrange(7, 7 + name.len() as int) =~= name);
}

} // verus!
