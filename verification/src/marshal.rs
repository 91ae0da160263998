//! Marshaling of byte strings into the null-terminated form required at
//! the operating-system boundary.
//!
//! A path or program name crosses into the operating system as a byte
//! sequence with a terminating null byte. A string that itself contains
//! a null byte has no such representation: it is rejected here, before
//! any system call is attempted, with the position of the offending
//! byte.

use vstd::prelude::*;

verus! {

/// Whether the byte sequence contains an embedded null byte.
pub open spec fn has_nul(s: Seq<u8>) -> bool {
    exists|i: int| 0 <= i < s.len() && s[i] == 0
}

/// Index of the first null byte in `s`; meaningful only when
/// `has_nul(s)` holds.
pub open spec fn first_nul(s: Seq<u8>) -> int
    decreases s.len(),
{
    if s.len() == 0 {
        0
    } else if s[0] == 0 {
        0
    } else {
        1 + first_nul(s.drop_first())
    }
}

/// A null byte at `i` with none before it is the first one.
proof fn lemma_first_nul(s: Seq<u8>, i: int)
    requires
        0 <= i < s.len(),
        s[i] == 0,
        forall|j: int| 0 <= j < i ==> s[j] != 0,
    ensures
        has_nul(s),
        first_nul(s) == i,
    decreases i,
{
    if i > 0 {
        assert(s[0] != 0);
        assert(s.drop_first()[i - 1] == 0);
        assert(forall|j: int| 0 <= j < i - 1 ==> s.drop_first()[j] != 0);
        lemma_first_nul(s.drop_first(), i - 1);
    }
}

/// Appends the terminating null byte, rejecting a byte string that
/// already contains one. On rejection nothing is marshaled and the
/// position of the first embedded null byte is reported.
pub fn to_nul_terminated(s: &Vec<u8>) -> (r: Result<Vec<u8>, usize>)
    ensures
        match r {
            Ok(z) => !has_nul(s@) && z@ == s@.push(0u8),
            Err(i) => has_nul(s@) && i == first_nul(s@),
        },
{
    let mut i: usize = 0;
    while i < s.len()
        invariant
            i <= s.len(),
            forall|j: int| 0 <= j < i ==> s@[j] != 0,
        decreases s.len() - i,
    {
        if s[i] == 0 {
            proof {
                lemma_first_nul(s@, i as int);
            }
            return Err(i);
        }
        i += 1;
    }
    let mut z: Vec<u8> = Vec::new();
    let mut k: usize = 0;
    while k < s.len()
        invariant
            k <= s.len(),
            z@ == s@.subrange(0, k as int),
        decreases s.len() - k,
    {
        z.push(s[k]);
        proof {
            assert(z@ =~= s@.subrange(0, k as int + 1));
        }
        k += 1;
    }
    proof {
        assert(z@ =~= s@);
    }
    z.push(0);
    Ok(z)
}

} // verus!
