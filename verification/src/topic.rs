//! Topic-name validation.
//!
//! A topic names a logical channel.  The core only ever works on absolute
//! topic names: non-empty strings that begin with the namespace-root marker
//! `'/'`.  Resolving relative names against a namespace is a collaborator's
//! job and never happens here.

use vstd::prelude::*;
use vstd::string::StrSliceExecFns;

verus! {

/// An absolute topic name: non-empty and beginning with the
/// namespace-root marker `'/'`.
pub open spec fn valid_topic(t: Seq<char>) -> bool {
    t.len() > 0 && t[0] == '/'
}

/// Decides whether `t` is a well-formed absolute topic name.
pub fn topic_is_valid(t: &str) -> (b: bool)
    ensures
        b == valid_topic(t@),
{
    if t.is_empty() {
        false
    } else {
        t.get_char(0) == '/'
    }
}

} // verus!
