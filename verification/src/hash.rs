//! The deterministic hash behind content addressing: a 64-bit FNV-1a fold
//! over a sequence of characters. An entry's address is derived from this
//! hash of its type tag and content, so that the address is a pure function
//! of the two (the content-addressing law).

use vstd::prelude::*;
use vstd::string::*;

verus! {

/// 64-bit FNV-1a offset basis, the fold's starting value.
pub const FNV_OFFSET_BASIS: u64 = 0xcbf2_9ce4_8422_2325;

/// 64-bit FNV-1a prime.
pub const FNV_PRIME: u64 = 0x100_0000_01b3;

/// One FNV-1a round: fold one code point into the running hash.
pub open spec fn fnv_update(h: u64, x: u64) -> u64 {
    ((((h ^ x) as int) * (FNV_PRIME as int)) % 0x1_0000_0000_0000_0000) as u64
}

/// The running hash `h` folded over every character of `s`, front to back.
pub open spec fn fnv_chars(h: u64, s: Seq<char>) -> u64
    decreases s.len(),
{
    if s.len() == 0 {
        h
    } else {
        fnv_chars(fnv_update(h, s[0] as u64), s.drop_first())
    }
}

/// One FNV-1a round in executable code.
pub fn fnv_round(h: u64, x: u64) -> (r: u64)
    ensures
        r == fnv_update(h, x),
{
    let mixed: u64 = h ^ x;
    proof {
        assert((mixed as int) * (FNV_PRIME as int) <= (u64::MAX as int) * (FNV_PRIME as int))
            by (nonlinear_arith)
            requires
                mixed <= u64::MAX,
        ;
    }
    let wide: u128 = (mixed as u128) * (FNV_PRIME as u128);
    (wide % 0x1_0000_0000_0000_0000u128) as u64
}

/// The characters of `s` folded onto the running hash `h`.
pub fn fnv_str(h: u64, s: &str) -> (r: u64)
    ensures
        r == fnv_chars(h, s@),
{
    let n: usize = s.unicode_len();
    proof {
        assert(s@.subrange(0, n as int) =~= s@);
    }
    let mut acc: u64 = h;
    let mut i: usize = 0;
    while i < n
        invariant
            n == s@.len(),
            i <= n,
            fnv_chars(acc, s@.subrange(i as int, n as int)) == fnv_chars(h, s@),
        decreases n - i,
    {
        let c: char = s.get_char(i);
        let ghost before: Seq<char> = s@.subrange(i as int, n as int);
        acc = fnv_round(acc, c as u64);
        i = i + 1;
        proof {
            assert(before[0] == c);
            assert(before.drop_first() =~= s@.subrange(i as int, n as int));
        }
    }
    proof {
        assert(s@.subrange(n as int, n as int) =~= Seq::<char>::empty());
    }
    acc
}

} // verus!
