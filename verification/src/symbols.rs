//! Which texts the host accepts as symbols.

use vstd::prelude::*;

verus! {

/// A character the host allows in a symbol: `a-z`, `A-Z`, `0-9` or `_`.
pub open spec fn is_symbol_char(c: char) -> bool {
    ('a' <= c && c <= 'z') || ('A' <= c && c <= 'Z') || ('0' <= c && c <= '9') || c == '_'
}

/// The longest symbol the host accepts.
pub open spec fn max_symbol_len() -> nat {
    32
}

/// A text that the host turns into a symbol without failing.
pub open spec fn is_valid_symbol(s: Seq<char>) -> bool {
    &&& s.len() <= max_symbol_len()
    &&& forall|i: int| 0 <= i < s.len() ==> is_symbol_char(#[trigger] s[i])
}

} // verus!
