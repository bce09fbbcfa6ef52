//! The primitives of the SCALE wire format that the persisted records and
//! the consensus log are made of: fixed-width little-endian integers and the
//! compact length prefix of a collection.
//!
//! Every encoder appends to a buffer and says exactly which bytes it
//! appended. Every reader says which value it found at a position, or that no
//! value of its kind is encoded there.

use vstd::prelude::*;

verus! {

/// The two little-endian bytes of `x`.
pub open spec fn u16_le(x: u16) -> Seq<u8> {
    seq![(x % 0x100) as u8, (x / 0x100) as u8]
}

/// The four little-endian bytes of `x`.
pub open spec fn u32_le(x: u32) -> Seq<u8> {
    seq![
        (x % 0x100) as u8,
        (x / 0x100 % 0x100) as u8,
        (x / 0x1_0000 % 0x100) as u8,
        (x / 0x100_0000) as u8,
    ]
}

/// The eight little-endian bytes of `x`.
pub open spec fn u64_le(x: u64) -> Seq<u8> {
    seq![
        (x % 0x100) as u8,
        (x / 0x100 % 0x100) as u8,
        (x / 0x1_0000 % 0x100) as u8,
        (x / 0x100_0000 % 0x100) as u8,
        (x / 0x1_0000_0000 % 0x100) as u8,
        (x / 0x100_0000_0000 % 0x100) as u8,
        (x / 0x1_0000_0000_0000 % 0x100) as u8,
        (x / 0x100_0000_0000_0000) as u8,
    ]
}

/// The compact encoding of a collection length: the two low bits of the
/// first byte give the mode, and each length has exactly one encoding, the
/// shortest that holds it.
pub open spec fn compact_u32(n: u32) -> Seq<u8> {
    if n < 0x40 {
        seq![(4 * n) as u8]
    } else if n < 0x4000 {
        u16_le((4 * n + 1) as u16)
    } else if n < 0x4000_0000 {
        u32_le((4 * n + 2) as u32)
    } else {
        seq![3u8] + u32_le(n)
    }
}

/// `pattern` stands in `bytes` from position `pos` on.
pub open spec fn holds_at(bytes: Seq<u8>, pos: int, pattern: Seq<u8>) -> bool {
    &&& 0 <= pos
    &&& pos + pattern.len() <= bytes.len()
    &&& bytes.subrange(pos, pos + pattern.len()) =~= pattern
}

proof fn lemma_split_u16(x: u16)
    by (bit_vector)
    ensures
        x % 0x100 < 0x100,
        x / 0x100 < 0x100,
        x == x % 0x100 + (x / 0x100) * 0x100,
{
}

proof fn lemma_split_u32(x: u32)
    by (bit_vector)
    ensures
        x % 0x100 < 0x100,
        x / 0x100 % 0x100 < 0x100,
        x / 0x1_0000 % 0x100 < 0x100,
        x / 0x100_0000 < 0x100,
        x == x % 0x100 + (x / 0x100 % 0x100) * 0x100 + (x / 0x1_0000 % 0x100) * 0x1_0000 + (x
            / 0x100_0000) * 0x100_0000,
{
}

proof fn lemma_split_u64(x: u64)
    by (bit_vector)
    ensures
        x % 0x100 < 0x100,
        x / 0x100 % 0x100 < 0x100,
        x / 0x1_0000 % 0x100 < 0x100,
        x / 0x100_0000 % 0x100 < 0x100,
        x / 0x1_0000_0000 % 0x100 < 0x100,
        x / 0x100_0000_0000 % 0x100 < 0x100,
        x / 0x1_0000_0000_0000 % 0x100 < 0x100,
        x / 0x100_0000_0000_0000 < 0x100,
        x == x % 0x100 + (x / 0x100 % 0x100) * 0x100 + (x / 0x1_0000 % 0x100) * 0x1_0000 + (x
            / 0x100_0000 % 0x100) * 0x100_0000 + (x / 0x1_0000_0000 % 0x100) * 0x1_0000_0000 + (x
            / 0x100_0000_0000 % 0x100) * 0x100_0000_0000 + (x / 0x1_0000_0000_0000 % 0x100)
            * 0x1_0000_0000_0000 + (x / 0x100_0000_0000_0000) * 0x100_0000_0000_0000,
{
}

proof fn lemma_join_u16(b0: u8, b1: u8, x: u16)
    by (bit_vector)
    requires
        x == b0 + b1 * 0x100,
    ensures
        x % 0x100 == b0,
        x / 0x100 == b1,
{
}

proof fn lemma_join_u32(b0: u8, b1: u8, b2: u8, b3: u8, x: u32)
    by (bit_vector)
    requires
        x == b0 + b1 * 0x100 + b2 * 0x1_0000 + b3 * 0x100_0000,
    ensures
        x % 0x100 == b0,
        x / 0x100 % 0x100 == b1,
        x / 0x1_0000 % 0x100 == b2,
        x / 0x100_0000 == b3,
{
}

proof fn lemma_join_u64(
    b0: u8,
    b1: u8,
    b2: u8,
    b3: u8,
    b4: u8,
    b5: u8,
    b6: u8,
    b7: u8,
    x: u64,
)
    by (bit_vector)
    requires
        x == b0 + b1 * 0x100 + b2 * 0x1_0000 + b3 * 0x100_0000 + b4 * 0x1_0000_0000 + b5
            * 0x100_0000_0000 + b6 * 0x1_0000_0000_0000 + b7 * 0x100_0000_0000_0000,
    ensures
        x % 0x100 == b0,
        x / 0x100 % 0x100 == b1,
        x / 0x1_0000 % 0x100 == b2,
        x / 0x100_0000 % 0x100 == b3,
        x / 0x1_0000_0000 % 0x100 == b4,
        x / 0x100_0000_0000 % 0x100 == b5,
        x / 0x1_0000_0000_0000 % 0x100 == b6,
        x / 0x100_0000_0000_0000 == b7,
{
}

/// Two integers with the same little-endian bytes are equal.
pub proof fn lemma_u16_le_injective(a: u16, b: u16)
    requires
        u16_le(a) == u16_le(b),
    ensures
        a == b,
{
    let sa = u16_le(a);
    let sb = u16_le(b);
    lemma_split_u16(a);
    lemma_split_u16(b);
    assert(sa[0] == sb[0] && sa[1] == sb[1]);
}

/// Two integers with the same little-endian bytes are equal.
pub proof fn lemma_u32_le_injective(a: u32, b: u32)
    requires
        u32_le(a) == u32_le(b),
    ensures
        a == b,
{
    let sa = u32_le(a);
    let sb = u32_le(b);
    lemma_split_u32(a);
    lemma_split_u32(b);
    assert(sa[0] == sb[0] && sa[1] == sb[1] && sa[2] == sb[2] && sa[3] == sb[3]);
}

/// Two integers with the same little-endian bytes are equal.
pub proof fn lemma_u64_le_injective(a: u64, b: u64)
    requires
        u64_le(a) == u64_le(b),
    ensures
        a == b,
{
    let sa = u64_le(a);
    let sb = u64_le(b);
    lemma_split_u64(a);
    lemma_split_u64(b);
    assert(sa[0] == sb[0] && sa[1] == sb[1] && sa[2] == sb[2] && sa[3] == sb[3]);
    assert(sa[4] == sb[4] && sa[5] == sb[5] && sa[6] == sb[6] && sa[7] == sb[7]);
}

/// The mode that the first byte of a compact length shows.
proof fn lemma_compact_u32_mode(n: u32)
    ensures
        compact_u32(n)[0] % 4 == if n < 0x40 {
            0int
        } else if n < 0x4000 {
            1int
        } else if n < 0x4000_0000 {
            2int
        } else {
            3int
        },
{
    if n < 0x40 {
        assert((4 * n) as u8 % 4 == 0) by (bit_vector)
            requires
                n < 0x40,
        ;
    } else if n < 0x4000 {
        let x: u16 = (4 * n + 1) as u16;
        assert(x == 4 * n + 1);
        assert((x % 0x100) as u8 % 4 == 1) by (bit_vector)
            requires
                x == 4 * n + 1,
                n < 0x4000,
        ;
    } else if n < 0x4000_0000 {
        let x: u32 = (4 * n + 2) as u32;
        assert(x == 4 * n + 2);
        assert((x % 0x100) as u8 % 4 == 2) by (bit_vector)
            requires
                x == 4 * n + 2,
                n < 0x4000_0000,
        ;
    } else {
    }
}

/// No compact length is the beginning of another: at most one length is
/// encoded at a given position.
pub proof fn lemma_compact_u32_unique(bytes: Seq<u8>, pos: int, a: u32, b: u32)
    requires
        holds_at(bytes, pos, compact_u32(a)),
        holds_at(bytes, pos, compact_u32(b)),
    ensures
        a == b,
{
    let ca = compact_u32(a);
    let cb = compact_u32(b);
    let ra = bytes.subrange(pos, pos + ca.len());
    let rb = bytes.subrange(pos, pos + cb.len());
    assert(ca[0] == ra[0] && cb[0] == rb[0]);
    lemma_compact_u32_mode(a);
    lemma_compact_u32_mode(b);
    assert(ca.len() == cb.len());
    assert(ca == cb);
    if a < 0x40 {
        assert((4 * a) as u8 == (4 * b) as u8);
    } else if a < 0x4000 {
        lemma_u16_le_injective((4 * a + 1) as u16, (4 * b + 1) as u16);
    } else if a < 0x4000_0000 {
        lemma_u32_le_injective((4 * a + 2) as u32, (4 * b + 2) as u32);
    } else {
        assert(u32_le(a) =~= ca.subrange(1, 5));
        assert(u32_le(b) =~= cb.subrange(1, 5));
        lemma_u32_le_injective(a, b);
    }
}

/// Appends the little-endian bytes of `x`.
pub fn write_u32(x: u32, out: &mut Vec<u8>)
    ensures
        final(out)@ == old(out)@ + u32_le(x),
{
    out.push((x % 0x100) as u8);
    out.push((x / 0x100 % 0x100) as u8);
    out.push((x / 0x1_0000 % 0x100) as u8);
    out.push((x / 0x100_0000) as u8);
}

/// Appends the little-endian bytes of `x`.
pub fn write_u64(x: u64, out: &mut Vec<u8>)
    ensures
        final(out)@ == old(out)@ + u64_le(x),
{
    out.push((x % 0x100) as u8);
    out.push((x / 0x100 % 0x100) as u8);
    out.push((x / 0x1_0000 % 0x100) as u8);
    out.push((x / 0x100_0000 % 0x100) as u8);
    out.push((x / 0x1_0000_0000 % 0x100) as u8);
    out.push((x / 0x100_0000_0000 % 0x100) as u8);
    out.push((x / 0x1_0000_0000_0000 % 0x100) as u8);
    out.push((x / 0x100_0000_0000_0000) as u8);
}

/// Appends the compact encoding of the length `n`.
pub fn write_compact_u32(n: u32, out: &mut Vec<u8>)
    ensures
        final(out)@ == old(out)@ + compact_u32(n),
{
    if n < 0x40 {
        out.push((4 * n) as u8);
    } else if n < 0x4000 {
        let x: u32 = 4 * n + 1;
        out.push((x % 0x100) as u8);
        out.push((x / 0x100) as u8);
    } else if n < 0x4000_0000 {
        write_u32(4 * n + 2, out);
    } else {
        out.push(3u8);
        write_u32(n, out);
    }
}

/// Reads the little-endian `u32` at `pos`, if four bytes stand there.
pub fn read_u32(input: &[u8], pos: usize) -> (r: Option<u32>)
    ensures
        match r {
            Some(x) => holds_at(input@, pos as int, u32_le(x)),
            None => pos + 4 > input@.len(),
        },
{
    if input.len() < 4 || pos > input.len() - 4 {
        return None;
    }
    let b0: u32 = input[pos] as u32;
    let b1: u32 = input[pos + 1] as u32;
    let b2: u32 = input[pos + 2] as u32;
    let b3: u32 = input[pos + 3] as u32;
    let x: u32 = b0 + b1 * 0x100 + b2 * 0x1_0000 + b3 * 0x100_0000;
    proof {
        lemma_join_u32(input[pos as int], input[pos + 1], input[pos + 2], input[pos + 3], x);
    }
    Some(x)
}

/// Reads the little-endian `u64` at `pos`, if eight bytes stand there.
pub fn read_u64(input: &[u8], pos: usize) -> (r: Option<u64>)
    ensures
        match r {
            Some(x) => holds_at(input@, pos as int, u64_le(x)),
            None => pos + 8 > input@.len(),
        },
{
    if input.len() < 8 || pos > input.len() - 8 {
        return None;
    }
    let b0: u64 = input[pos] as u64;
    let b1: u64 = input[pos + 1] as u64;
    let b2: u64 = input[pos + 2] as u64;
    let b3: u64 = input[pos + 3] as u64;
    let b4: u64 = input[pos + 4] as u64;
    let b5: u64 = input[pos + 5] as u64;
    let b6: u64 = input[pos + 6] as u64;
    let b7: u64 = input[pos + 7] as u64;
    let x: u64 = b0 + b1 * 0x100 + b2 * 0x1_0000 + b3 * 0x100_0000 + b4 * 0x1_0000_0000 + b5
        * 0x100_0000_0000 + b6 * 0x1_0000_0000_0000 + b7 * 0x100_0000_0000_0000;
    proof {
        lemma_join_u64(
            input[pos as int],
            input[pos + 1],
            input[pos + 2],
            input[pos + 3],
            input[pos + 4],
            input[pos + 5],
            input[pos + 6],
            input[pos + 7],
            x,
        );
    }
    Some(x)
}

/// Reads the compact length at `pos` and says where the next item begins.
/// A length that is not in its shortest form is no length.
pub fn read_compact_u32(input: &[u8], pos: usize) -> (r: Option<(u32, usize)>)
    ensures
        match r {
            Some((n, next)) => holds_at(input@, pos as int, compact_u32(n)) && next == pos
                + compact_u32(n).len(),
            None => forall|n: u32| !holds_at(input@, pos as int, compact_u32(n)),
        },
{
    proof {
        assert forall|n: u32| #[trigger]
            holds_at(input@, pos as int, compact_u32(n)) implies compact_u32(n)[0] == input@[pos as int]
            && pos + compact_u32(n).len() <= input@.len() by {
            assert(compact_u32(n)[0] == input@.subrange(pos as int, pos + compact_u32(n).len())[0]);
        }
        assert forall|n: u32| compact_u32(n).len() >= 1 by {}
    }
    if pos >= input.len() {
        return None;
    }
    let first: u8 = input[pos];
    let mode: u8 = first % 4;
    if mode == 0 {
        let n: u32 = (first / 4) as u32;
        proof {
            assert(compact_u32(n) =~= seq![first]) by {
                assert(4 * (first / 4) == first) by (bit_vector)
                    requires
                        first % 4 == 0,
                ;
            }
        }
        Some((n, pos + 1))
    } else if mode == 1 {
        if input.len() - pos < 2 {
            proof {
                assert forall|n: u32| !holds_at(input@, pos as int, compact_u32(n)) by {
                    lemma_compact_u32_mode(n);
                }
            }
            return None;
        }
        let second: u8 = input[pos + 1];
        let x: u16 = first as u16 + (second as u16) * 0x100;
        let n: u32 = (x / 4) as u32;
        proof {
            lemma_join_u16(first, second, x);
            let low: u16 = first as u16;
            assert(x % 4 == 1 && x / 4 < 0x4000) by (bit_vector)
                requires
                    x % 0x100 == low,
                    low % 4 == 1,
            ;
            assert(u16_le(x) =~= input@.subrange(pos as int, pos + 2));
        }
        if n < 0x40 {
            proof {
                assert forall|m: u32| !holds_at(input@, pos as int, compact_u32(m)) by {
                    lemma_compact_u32_mode(m);
                    if holds_at(input@, pos as int, compact_u32(m)) {
                        lemma_u16_le_injective((4 * m + 1) as u16, x);
                    }
                }
            }
            return None;
        }
        Some((n, pos + 2))
    } else if mode == 2 {
        let x: u32 = match read_u32(input, pos) {
            Some(x) => x,
            None => {
                proof {
                    assert forall|n: u32| !holds_at(input@, pos as int, compact_u32(n)) by {
                        lemma_compact_u32_mode(n);
                    }
                }
                return None;
            },
        };
        let n: u32 = x / 4;
        proof {
            assert(u32_le(x)[0] == input@.subrange(pos as int, pos + 4)[0]);
            lemma_split_u32(x);
            let low: u32 = first as u32;
            assert(x % 4 == 2 && x / 4 < 0x4000_0000) by (bit_vector)
                requires
                    x % 0x100 == low,
                    low % 4 == 2,
            ;
        }
        if n < 0x4000 {
            proof {
                assert forall|m: u32| !holds_at(input@, pos as int, compact_u32(m)) by {
                    lemma_compact_u32_mode(m);
                    if holds_at(input@, pos as int, compact_u32(m)) {
                        lemma_u32_le_injective((4 * m + 2) as u32, x);
                    }
                }
            }
            return None;
        }
        Some((n, pos + 4))
    } else {
        if first != 3 {
            proof {
                assert forall|n: u32| !holds_at(input@, pos as int, compact_u32(n)) by {
                    lemma_compact_u32_mode(n);
                }
            }
            return None;
        }
        let n: u32 = match read_u32(input, pos + 1) {
            Some(n) => n,
            None => {
                proof {
                    assert forall|n: u32| !holds_at(input@, pos as int, compact_u32(n)) by {
                        lemma_compact_u32_mode(n);
                    }
                }
                return None;
            },
        };
        proof {
            assert forall|m: u32|
                holds_at(input@, pos as int, compact_u32(m)) implies holds_at(
                input@,
                pos + 1,
                u32_le(m),
            ) by {
                lemma_compact_u32_mode(m);
                let c = compact_u32(m);
                assert(c =~= input@.subrange(pos as int, pos + 5));
                assert(u32_le(m) =~= c.subrange(1, 5));
            }
        }
        if n < 0x4000_0000 {
            proof {
                assert forall|m: u32| !holds_at(input@, pos as int, compact_u32(m)) by {
                    lemma_compact_u32_mode(m);
                    if holds_at(input@, pos as int, compact_u32(m)) {
                        lemma_u32_le_injective(m, n);
                    }
                }
            }
            return None;
        }
        proof {
            assert(compact_u32(n) =~= input@.subrange(pos as int, pos + 5)) by {
                let c = compact_u32(n);
                let r = input@.subrange(pos as int, pos + 5);
                let w = input@.subrange(pos + 1, pos + 5);
                assert(c.len() == 5);
                assert forall|i: int| 0 <= i < 5 implies c[i] == r[i] by {
                    if i > 0 {
                        assert(c[i] == u32_le(n)[i - 1]);
                        assert(r[i] == w[i - 1]);
                    }
                }
            }
        }
        Some((n, pos + 5))
    }
}

} // verus!
