//! DJB2 string hashing, exact and case-folded.
//!
//! The hash is the universal identity key of the SDK: modules, exported
//! functions and plugin commands are all compared by their 32-bit DJB2
//! hash, never by the name itself.

use vstd::prelude::*;

verus! {

/// One step of the DJB2 recurrence: `state * 33 + byte`, with 32-bit
/// wraparound arithmetic.
pub open spec fn djb2_step(h: u32, b: u8) -> u32 {
    vstd::wrapping::u32_specs::wrapping_add(
        vstd::wrapping::u32_specs::wrapping_mul(h, 33),
        b as u32,
    )
}

/// The DJB2 hash of a byte sequence: seed 5381, each byte folded in by
/// `djb2_step`.
pub open spec fn spec_djb2(s: Seq<u8>) -> u32
    decreases s.len(),
{
    if s.len() == 0 {
        5381u32
    } else {
        djb2_step(spec_djb2(s.drop_last()), s.last())
    }
}

/// ASCII case folding of one byte: `A`-`Z` becomes `a`-`z`, every other
/// byte (including bytes above 0x7F) passes through unchanged.
pub open spec fn fold_case(b: u8) -> u8 {
    if 0x41 <= b && b <= 0x5A {
        (b + 0x20) as u8
    } else {
        b
    }
}

/// A byte sequence with every ASCII upper-case letter folded to lower case.
pub open spec fn fold_seq(s: Seq<u8>) -> Seq<u8> {
    s.map_values(|b: u8| fold_case(b))
}

/// The case-folded DJB2 hash: the hash of the case-folded sequence.
pub open spec fn spec_djb2_ci(s: Seq<u8>) -> u32 {
    spec_djb2(fold_seq(s))
}

/// DJB2 hash, case-sensitive.
pub fn djb2(s: &[u8]) -> (r: u32)
    ensures
        r == spec_djb2(s@),
{
    let mut hash: u32 = 5381;
    let mut i: usize = 0;
    while i < s.len()
        invariant
            i <= s.len(),
            hash == spec_djb2(s@.take(i as int)),
        decreases s.len() - i,
    {
        hash = hash.wrapping_mul(33).wrapping_add(s[i] as u32);
        proof {
            assert(s@.take(i + 1).drop_last() =~= s@.take(i as int));
            assert(s@.take(i + 1).last() == s@[i as int]);
        }
        i = i + 1;
    }
    proof {
        assert(s@.take(s.len() as int) =~= s@);
    }
    hash
}

/// DJB2 hash, case-folded: ASCII `A`-`Z` are folded to `a`-`z` before
/// entering the recurrence.
pub fn djb2_ci(s: &[u8]) -> (r: u32)
    ensures
        r == spec_djb2_ci(s@),
{
    let mut hash: u32 = 5381;
    let mut i: usize = 0;
    while i < s.len()
        invariant
            i <= s.len(),
            hash == spec_djb2(fold_seq(s@.take(i as int))),
        decreases s.len() - i,
    {
        let mut c: u32 = s[i] as u32;
        if c >= 0x41 && c <= 0x5A {
            c = c + 0x20;
        }
        assert(c == fold_case(s@[i as int]) as u32);
        hash = hash.wrapping_mul(33).wrapping_add(c);
        proof {
            assert(fold_seq(s@.take(i + 1)).drop_last() =~= fold_seq(s@.take(i as int)));
            assert(fold_seq(s@.take(i + 1)).last() == fold_case(s@[i as int]));
        }
        i = i + 1;
    }
    proof {
        assert(s@.take(s.len() as int) =~= s@);
    }
    hash
}

/// Two bytes that differ at most by the case of one ASCII letter fold to
/// the same byte.
pub open spec fn case_flipped(a: u8, b: u8) -> bool {
    b == a || (0x41 <= a && a <= 0x5A && b == a + 0x20) || (0x61 <= a && a <= 0x7A && b == a
        - 0x20)
}

/// Case-fold insensitivity: flipping the case of any subset of the ASCII
/// letters of a byte string leaves its case-folded hash unchanged.
pub proof fn lemma_djb2_ci_case_fold(s1: Seq<u8>, s2: Seq<u8>)
    requires
        s1.len() == s2.len(),
        forall|i: int| 0 <= i < s1.len() ==> case_flipped(s1[i], s2[i]),
    ensures
        spec_djb2_ci(s1) == spec_djb2_ci(s2),
{
    assert forall|i: int| 0 <= i < s1.len() implies fold_case(s1[i]) == fold_case(s2[i]) by {
        assert(case_flipped(s1[i], s2[i]));
    }
    assert(fold_seq(s1) =~= fold_seq(s2));
}

} // verus!
