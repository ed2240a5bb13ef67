//! What the HTTP interface checks before it passes a request on.

use vstd::prelude::*;

verus! {

/// Whether a character may stand in the name of a kind of game: an ASCII
/// letter, an ASCII digit or an underscore.
pub open spec fn is_namespace_char(c: char) -> bool {
    ('a' <= c && c <= 'z') || ('A' <= c && c <= 'Z') || ('0' <= c && c <= '9') || c == '_'
}

/// Whether a text may be passed on as the name of a kind of game.
pub open spec fn is_namespace(text: Seq<char>) -> bool {
    forall|i: int| 0 <= i < text.len() ==> is_namespace_char(#[trigger] text[i])
}

/// Whether `namespace` may be passed on as the name of a kind of game: it
/// holds nothing but ASCII letters, ASCII digits and underscores.
pub fn valid_namespace(namespace: &str) -> (valid: bool)
    ensures
        valid == is_namespace(namespace@),
{
    let chars = namespace.chars();
    for c in it: chars
        invariant
            it.seq() == namespace@,
            forall|i: int| 0 <= i < it.index() ==> is_namespace_char(#[trigger] namespace@[i]),
    {
        let allowed = ('a' <= c && c <= 'z') || ('A' <= c && c <= 'Z') || ('0' <= c && c <= '9')
            || c == '_';
        if !allowed {
            assert(!is_namespace_char(namespace@[it.index()]));
            return false;
        }
    }
    true
}

/// Whether a request for `limit` recent games is within what the settings
/// allow.
pub fn limit_allowed(limit: u32, max_query_size: u32) -> (allowed: bool)
    ensures
        allowed == (limit <= max_query_size),
{
    limit <= max_query_size
}

} // verus!
