use vstd::prelude::*;

verus! {

/// The mathematical sum of two operands: what `add` returns.
pub open spec fn sum(left: nat, right: nat) -> nat {
    left + right
}

/// Adds two unsigned machine words.
///
/// Overflow policy: a sum that does not fit in `usize` is ruled out by the
/// precondition, so every caller must show that the result is representable.
/// Within that range the result is the exact sum, never wrapped or clamped.
pub fn add(left: usize, right: usize) -> (r: usize)
    requires
        left + right <= usize::MAX,
    ensures
        r == sum(left as nat, right as nat),
{
    left + right
}

/// Addition is commutative: whenever `add(a, b)` may be called, so may
/// `add(b, a)`, and both return the same value.
pub proof fn lemma_add_commutative(a: usize, b: usize)
    requires
        a + b <= usize::MAX,
    ensures
        b + a <= usize::MAX,
        sum(a as nat, b as nat) == sum(b as nat, a as nat),
{
}

/// Zero is a right identity: `add(a, 0)` may always be called and returns `a`.
pub proof fn lemma_add_zero_identity(a: usize)
    ensures
        a + 0 <= usize::MAX,
        sum(a as nat, 0) == a,
{
}

} // verus!
