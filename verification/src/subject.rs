//! Subjects: the routing key under which an envelope is published.

use vstd::prelude::*;

verus! {

/// The subject for a symbol under a prefix: the prefix, a dot, the symbol.
pub open spec fn subject_of(prefix: Seq<char>, symbol: Seq<char>) -> Seq<char> {
    prefix + seq!['.'] + symbol
}

/// Builds the subject for a symbol under a prefix. Both delivery modes and
/// both kinds of source go through this one function.
pub fn subject_for(prefix: &str, symbol: &str) -> (subject: String)
    ensures
        subject@ == subject_of(prefix@, symbol@),
{
    let mut subject = String::from_str(prefix);
    proof {
        reveal_strlit(".");
    }
    assert("."@ =~= seq!['.']);
    subject.append(".");
    subject.append(symbol);
    subject
}

} // verus!
