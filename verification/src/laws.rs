//! What holds of every key code.

use vstd::prelude::*;
use crate::keycode::KeyCode;

verus! {

/// Two different keys never share a key code.
pub proof fn lemma_code_injective(a: KeyCode, b: KeyCode)
    requires
        a != b,
    ensures
        a.code() != b.code(),
{
}

/// Two keys are equal exactly when their key codes are.
pub proof fn lemma_eq_iff_code_eq(a: KeyCode, b: KeyCode)
    ensures
        a == b <==> a.code() == b.code(),
{
    if a != b {
        lemma_code_injective(a, b);
    }
}

/// Every key code is a non-negative 32-bit signed integer.
pub proof fn lemma_code_range(k: KeyCode)
    ensures
        0 <= k.code() <= i32::MAX,
{
}

/// An answer to "which key has code `n`" that is right, a key with that code
/// or `None` where no key has it, is the answer that `from_code` gives.
pub proof fn lemma_from_code_unique(n: int, r: Option<KeyCode>)
    requires
        match r {
            Some(k) => k.code() == n,
            None => forall|k: KeyCode| k.code() != n,
        },
    ensures
        r == KeyCode::from_code(n),
{
    if let Some(k) = r {
        let c = choose|c: KeyCode| c.code() == n;
        lemma_eq_iff_code_eq(c, k);
    }
}

/// Looking up a key's own code gives that key back.
pub proof fn lemma_round_trip(k: KeyCode)
    ensures
        KeyCode::from_code(k.code()) == Some(k),
{
    lemma_from_code_unique(k.code(), Some(k));
}

/// An integer that is the code of no key is looked up in vain, and only such
/// an integer is.
pub proof fn lemma_absent(n: int)
    ensures
        KeyCode::from_code(n) is None <==> forall|k: KeyCode| k.code() != n,
{
}

/// A key that a lookup finds has the code that was looked up.
pub proof fn lemma_found(n: int, k: KeyCode)
    ensures
        KeyCode::from_code(n) == Some(k) <==> k.code() == n,
{
    if k.code() == n {
        lemma_round_trip(k);
    }
}

/// The three numeric projections of a key code agree: each holds the code
/// itself, merely at another width.
pub proof fn lemma_projections_agree(k: KeyCode)
    ensures
        k.code() as i64 == k.code(),
        k.code() as u64 == k.code(),
        k.code() as isize == k.code(),
{
    lemma_code_range(k);
}

} // verus!
