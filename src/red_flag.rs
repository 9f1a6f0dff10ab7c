//! A cheap local gate that keeps obviously degenerate candidates out of a vote.
use vstd::prelude::*;
use crate::text::{has_sub, contains};

verus! {

/// Default token ceiling of a candidate; four characters stand for one token.
pub const DEFAULT_MAX_TOKENS: usize = 700;

/// The text reads like a confusion loop: an apology next to a retry.
pub open spec fn confusion_loop(s: Seq<char>) -> bool {
    has_sub(s, "I apologize"@) && has_sub(s, "let me try again"@)
}

/// Rejects a candidate that is too long or caught in a confusion loop.
pub struct RedFlagFilter {
    max_token_length: usize,
}

impl RedFlagFilter {
    /// The token ceiling of this filter.
    pub closed spec fn max_tokens(&self) -> nat {
        self.max_token_length as nat
    }

    /// Whether this filter rejects `s`.
    pub open spec fn flags(&self, s: Seq<char>) -> bool {
        s.len() > 4 * self.max_tokens() || confusion_loop(s)
    }

    pub fn new() -> (r: RedFlagFilter)
        ensures
            r.max_tokens() == DEFAULT_MAX_TOKENS,
    {
        RedFlagFilter { max_token_length: DEFAULT_MAX_TOKENS }
    }

    pub fn is_flagged(&self, response: &str) -> (r: bool)
        ensures
            r == self.flags(response@),
    {
        let limit = self.max_token_length as u128 * 4;
        if response.unicode_len() as u128 > limit {
            return true;
        }
        if contains(response, "I apologize") && contains(response, "let me try again") {
            return true;
        }
        false
    }
}

} // verus!
