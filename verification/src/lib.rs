//! Multiplication of signed machine words.
//!
//! The crate offers one operation, [`multiply`], on `isize`: the integer type
//! whose width is that of a pointer on the target. A product that does not fit
//! a word wraps around in two's complement, in every build profile; nothing is
//! checked at run time and no input is refused.
//!
//! The contracts are stated over mathematical integers. [`word::wrap`] says
//! which word stands for an arbitrary integer, and [`wrapped_product`] applies
//! it to a product.

use vstd::arithmetic::mul::lemma_mul_is_commutative;
use vstd::prelude::*;

pub mod word;

use crate::word::{lemma_wrap_finds_word, wrap};

verus! {

/// The product of `a` and `b` as signed machine-word arithmetic gives it.
pub open spec fn wrapped_product(a: int, b: int) -> int {
    wrap(a * b)
}

/// Multiplies two signed machine words.
///
/// Where the product fits a word, it is returned as it is. Where it does not,
/// it wraps around: the result is the word that stands for the product. One
/// is therefore neutral and zero absorbing for every `a`.
pub fn multiply(a: isize, b: isize) -> (product: isize)
    ensures
        product == wrapped_product(a as int, b as int),
        isize::MIN <= a * b <= isize::MAX ==> product == a * b,
        b == 1 ==> product == a,
        b == 0 ==> product == 0,
{
    proof {
        assert(b == 1 ==> a * b == a) by (nonlinear_arith);
        assert(b == 0 ==> a * b == 0) by (nonlinear_arith);
        if isize::MIN <= a * b <= isize::MAX {
            lemma_wrap_finds_word(a * b, a * b, 0);
        }
    }
    a.wrapping_mul(b)
}

/// The order of the factors does not matter: `multiply(a, b)` and
/// `multiply(b, a)` return the same word, whether the product fits or wraps.
pub proof fn lemma_multiply_commutes(a: isize, b: isize)
    ensures
        wrapped_product(a as int, b as int) == wrapped_product(b as int, a as int),
{
    lemma_mul_is_commutative(a as int, b as int);
}

} // verus!
