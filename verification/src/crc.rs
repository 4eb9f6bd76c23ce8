//! The 16-bit CRC that protects each 128-byte section of an SPD image
//! (CRC-16/XMODEM: polynomial 0x1021, initial value 0).

use vstd::prelude::*;

verus! {

/// One shift step of the CRC register: shift left, folding the polynomial in
/// when the top bit falls out.
pub open spec fn crc_shift(c: u16) -> u16 {
    if c & 0x8000 != 0 {
        (((c as u32) << 1) ^ 0x1021) as u16
    } else {
        ((c as u32) << 1) as u16
    }
}

/// `n` shift steps applied to `c`.
pub open spec fn crc_shift_n(c: u16, n: nat) -> u16
    decreases n,
{
    if n == 0 {
        c
    } else {
        crc_shift_n(crc_shift(c), (n - 1) as nat)
    }
}

/// Folding one data byte into the CRC register: xor into the high byte, then
/// eight shift steps.
pub open spec fn crc_byte(c: u16, b: u8) -> u16 {
    crc_shift_n(c ^ ((b as u16) << 8), 8)
}

/// CRC register state after starting from `c` and consuming all of `s`.
pub open spec fn crc_from(c: u16, s: Seq<u8>) -> u16
    decreases s.len(),
{
    if s.len() == 0 {
        c
    } else {
        crc_from(crc_byte(c, s[0]), s.drop_first())
    }
}

/// The CRC of a byte sequence, starting from register value 0.
pub open spec fn spec_crc(s: Seq<u8>) -> u16 {
    crc_from(0, s)
}

proof fn lemma_crc_from_step(c: u16, s: Seq<u8>, i: int)
    requires
        0 <= i < s.len(),
    ensures
        crc_from(c, s.skip(i)) == crc_from(crc_byte(c, s[i]), s.skip(i + 1)),
{
    assert(s.skip(i).len() > 0);
    assert(s.skip(i)[0] == s[i]);
    assert(s.skip(i).drop_first() =~= s.skip(i + 1));
}

/// Calculate the CRC code for `data` according to the algorithm in the JEDEC
/// SPD specification.
pub fn crc(data: &[u8]) -> (r: u16)
    ensures
        r == spec_crc(data@),
{
    let ghost s = data@;
    let mut acc: u16 = 0;
    let mut i: usize = 0;
    proof {
        assert(s.skip(0) =~= s);
    }
    while i < data.len()
        invariant
            0 <= i <= s.len(),
            data@ == s,
            crc_from(acc, s.skip(i as int)) == spec_crc(s),
        decreases s.len() - i,
    {
        let b = data[i];
        proof {
            lemma_crc_from_step(acc, s, i as int);
        }
        acc = acc ^ ((b as u16) << 8u16);
        let mut k: usize = 0;
        let ghost start = acc;
        while k < 8
            invariant
                0 <= k <= 8,
                acc == crc_shift_n(start, k as nat),
            decreases 8 - k,
        {
            proof {
                lemma_crc_shift_n_unfold_right(start, k as nat);
            }
            if acc & 0x8000 != 0 {
                acc = (((acc as u32) << 1u32) ^ 0x1021) as u16;
            } else {
                acc = ((acc as u32) << 1u32) as u16;
            }
            k = k + 1;
        }
        i = i + 1;
    }
    proof {
        assert(s.skip(s.len() as int) =~= Seq::<u8>::empty());
    }
    acc
}

proof fn lemma_crc_shift_injective(a: u16, b: u16)
    by (bit_vector)
    requires
        a != b,
    ensures
        crc_shift(a) != crc_shift(b),
{
}

proof fn lemma_crc_shift_n_injective(a: u16, b: u16, n: nat)
    requires
        a != b,
    ensures
        crc_shift_n(a, n) != crc_shift_n(b, n),
    decreases n,
{
    if n > 0 {
        lemma_crc_shift_injective(a, b);
        lemma_crc_shift_n_injective(crc_shift(a), crc_shift(b), (n - 1) as nat);
    }
}

proof fn lemma_crc_byte_keeps_diff(a: u16, b: u16, x: u8)
    requires
        a != b,
    ensures
        crc_byte(a, x) != crc_byte(b, x),
{
    assert(a ^ ((x as u16) << 8) != b ^ ((x as u16) << 8)) by (bit_vector)
        requires
            a != b,
    ;
    lemma_crc_shift_n_injective(a ^ ((x as u16) << 8), b ^ ((x as u16) << 8), 8);
}

proof fn lemma_crc_byte_diff_byte(c: u16, x: u8, y: u8)
    requires
        x != y,
    ensures
        crc_byte(c, x) != crc_byte(c, y),
{
    assert(c ^ ((x as u16) << 8) != c ^ ((y as u16) << 8)) by (bit_vector)
        requires
            x != y,
    ;
    lemma_crc_shift_n_injective(c ^ ((x as u16) << 8), c ^ ((y as u16) << 8), 8);
}

proof fn lemma_crc_from_keeps_diff(a: u16, b: u16, s: Seq<u8>)
    requires
        a != b,
    ensures
        crc_from(a, s) != crc_from(b, s),
    decreases s.len(),
{
    if s.len() > 0 {
        lemma_crc_byte_keeps_diff(a, b, s[0]);
        lemma_crc_from_keeps_diff(crc_byte(a, s[0]), crc_byte(b, s[0]), s.drop_first());
    }
}

proof fn lemma_crc_from_concat(c: u16, s: Seq<u8>, t: Seq<u8>)
    ensures
        crc_from(c, s + t) == crc_from(crc_from(c, s), t),
    decreases s.len(),
{
    if s.len() == 0 {
        assert(s + t =~= t);
    } else {
        assert((s + t)[0] == s[0]);
        assert((s + t).drop_first() =~= s.drop_first() + t);
        lemma_crc_from_concat(crc_byte(c, s[0]), s.drop_first(), t);
    }
}

/// Corrupting a single byte of a sequence always changes its CRC: the two
/// sequences have the same length, agree everywhere except at index `i`, and
/// their CRCs nevertheless differ. A single flipped bit is a special case.
pub proof fn lemma_crc_detects_byte_change(s1: Seq<u8>, s2: Seq<u8>, i: int)
    requires
        s1.len() == s2.len(),
        0 <= i < s1.len(),
        forall|j: int| 0 <= j < s1.len() && j != i ==> s1[j] == s2[j],
        s1[i] != s2[i],
    ensures
        spec_crc(s1) != spec_crc(s2),
{
    assert(s1 =~= s1.take(i) + s1.skip(i));
    assert(s2 =~= s2.take(i) + s2.skip(i));
    lemma_crc_from_concat(0, s1.take(i), s1.skip(i));
    lemma_crc_from_concat(0, s2.take(i), s2.skip(i));
    assert(s1.take(i) =~= s2.take(i));
    let a = crc_from(0, s1.take(i));
    assert(s1.skip(i)[0] == s1[i]);
    assert(s2.skip(i)[0] == s2[i]);
    assert(s1.skip(i).drop_first() =~= s1.skip(i + 1));
    assert(s2.skip(i).drop_first() =~= s2.skip(i + 1));
    assert(s1.skip(i + 1) =~= s2.skip(i + 1));
    lemma_crc_byte_diff_byte(a, s1[i], s2[i]);
    lemma_crc_from_keeps_diff(crc_byte(a, s1[i]), crc_byte(a, s2[i]), s1.skip(i + 1));
}

/// Peeling a shift step off the tail: `n + 1` steps are `n` steps followed by
/// one more.
proof fn lemma_crc_shift_n_unfold_right(c: u16, n: nat)
    ensures
        crc_shift_n(c, n + 1) == crc_shift(crc_shift_n(c, n)),
    decreases n,
{
    if n == 0 {
        assert(crc_shift_n(c, 1) == crc_shift_n(crc_shift(c), 0));
        assert(crc_shift_n(crc_shift(c), 0) == crc_shift(c));
    } else {
        lemma_crc_shift_n_unfold_right(crc_shift(c), (n - 1) as nat);
        assert(crc_shift_n(c, n + 1) == crc_shift_n(crc_shift(c), n));
        assert(crc_shift_n(c, n) == crc_shift_n(crc_shift(c), (n - 1) as nat));
    }
}

} // verus!
