//! Signed machine words among the mathematical integers.
//!
//! A word is an `isize`: as wide as a pointer on the target, 32 or 64 bits.
//! Arithmetic on words that leaves their range wraps around in two's
//! complement. [`wrap`] states, for any integer, which word it then becomes.

use vstd::arithmetic::div_mod::lemma_fundamental_div_mod_converse_mod;
use vstd::prelude::*;

verus! {

/// How many values a machine word has: two to the power of its width in bits.
pub open spec fn word_values() -> int {
    usize::MAX as int + 1
}

/// The signed machine word that stands for `n`: the integer from `isize::MIN`
/// to `isize::MAX` that differs from `n` by a multiple of [`word_values`].
pub open spec fn wrap(n: int) -> int {
    let low = n % word_values();
    if low <= isize::MAX as int {
        low
    } else {
        low - word_values()
    }
}

/// `wrap` undoes any number of wrap-arounds: where `n` lies `k` times
/// [`word_values`] away from a word `w`, it is `w` that stands for `n`. With
/// `k == 0`: a word stands for itself.
pub proof fn lemma_wrap_finds_word(n: int, w: int, k: int)
    requires
        isize::MIN <= w <= isize::MAX,
        n == w + k * word_values(),
    ensures
        wrap(n) == w,
{
    let m = word_values();
    if w >= 0 {
        lemma_fundamental_div_mod_converse_mod(n, m, k, w);
    } else {
        assert(n == (k - 1) * m + (w + m)) by (nonlinear_arith)
            requires
                n == w + k * m,
        ;
        lemma_fundamental_div_mod_converse_mod(n, m, k - 1, w + m);
    }
}

} // verus!
