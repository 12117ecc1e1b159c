//! Token counts reported by a model provider, and their sums.
use vstd::prelude::*;

verus! {

/// The tokens one model call consumed.
#[derive(Debug, Clone, Copy, PartialEq, Eq)]
pub struct TokenUsage {
    pub input_tokens: u64,
    pub output_tokens: u64,
    pub total_tokens: u64,
}

/// A token count as three mathematical integers: input, output and total.
pub open spec fn counts(u: TokenUsage) -> (int, int, int) {
    (u.input_tokens as int, u.output_tokens as int, u.total_tokens as int)
}

/// The sum of two token counts, part by part.
pub open spec fn plus(a: (int, int, int), b: (int, int, int)) -> (int, int, int) {
    (a.0 + b.0, a.1 + b.1, a.2 + b.2)
}

/// The zero token count.
pub open spec fn zero() -> (int, int, int) {
    (0, 0, 0)
}

/// Whether every part of a token count fits in a `u64`.
pub open spec fn fits(a: (int, int, int)) -> bool {
    0 <= a.0 <= u64::MAX && 0 <= a.1 <= u64::MAX && 0 <= a.2 <= u64::MAX
}

impl Default for TokenUsage {
    /// No tokens.
    fn default() -> (r: TokenUsage)
        ensures
            counts(r) == zero(),
    {
        TokenUsage { input_tokens: 0, output_tokens: 0, total_tokens: 0 }
    }
}

impl TokenUsage {
    /// Adds `other` to this count, part by part (the `+=` of token counts).
    pub fn accumulate(&mut self, other: TokenUsage)
        requires
            fits(plus(counts(*old(self)), counts(other))),
        ensures
            counts(*final(self)) == plus(counts(*old(self)), counts(other)),
    {
        self.input_tokens = self.input_tokens + other.input_tokens;
        self.output_tokens = self.output_tokens + other.output_tokens;
        self.total_tokens = self.total_tokens + other.total_tokens;
    }
}

} // verus!
