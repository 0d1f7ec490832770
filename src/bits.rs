//! Reading and writing fields of up to 16 bits at arbitrary bit offsets of a
//! byte buffer, most significant bit first.
use vstd::prelude::*;

verus! {

/// Bit `i` of `bytes`, counted from the most significant bit of byte 0.
pub open spec fn bit_at(bytes: Seq<u8>, i: int) -> bool {
    (bytes[i / 8] >> ((7 - i % 8) as u8)) & 1u8 == 1u8
}

/// Bit `j` of the `width`-bit value `v`, counted from its most significant bit.
pub open spec fn value_bit(v: u16, width: nat, j: int) -> bool {
    (v >> ((width - 1 - j) as u16)) & 1u16 == 1u16
}

/// `v` has no bits set at or above position `width`.
pub open spec fn fits(v: u16, width: nat) -> bool {
    width >= 16 || v >> (width as u16) == 0u16
}

/// The `width` bits of `bytes` from bit `start` on spell `v`, most significant bit first.
pub open spec fn holds_bits(bytes: Seq<u8>, start: int, width: nat, v: u16) -> bool {
    forall|j: int| 0 <= j < width ==> bit_at(bytes, start + j) == value_bit(v, width, j)
}

/// Every bit of `a` and `b` outside `[lo, hi)` is the same.
pub open spec fn same_bits_outside(a: Seq<u8>, b: Seq<u8>, lo: int, hi: int) -> bool {
    forall|i: int| 0 <= i < 8 * a.len() && !(lo <= i < hi) ==> bit_at(a, i) == bit_at(b, i)
}

proof fn lemma_shift_step(v: u16, p: u16)
    requires
        p < 16,
    ensures
        v >> p == ((v >> (p + 1) as u16) << 1u16) | ((v >> p) & 1u16),
{
    assert(v >> p == ((v >> (p + 1) as u16) << 1u16) | ((v >> p) & 1u16)) by (bit_vector)
        requires
            p < 16,
    ;
}

/// Two values that fit in `width` bits and agree on each of those bits agree
/// on everything from bit `p` up.
proof fn lemma_high_bits_agree(v1: u16, v2: u16, width: nat, p: nat)
    requires
        p <= width <= 16,
        fits(v1, width),
        fits(v2, width),
        forall|j: int| 0 <= j < width ==> value_bit(v1, width, j) == value_bit(v2, width, j),
    ensures
        v1 >> (p as u16) == v2 >> (p as u16),
    decreases width - p,
{
    if p == width {
        if width == 16 {
            assert(v1 >> 16u16 == 0u16 && v2 >> 16u16 == 0u16) by (bit_vector);
        }
    } else {
        lemma_high_bits_agree(v1, v2, width, p + 1);
        let q = p as u16;
        assert(value_bit(v1, width, width - 1 - p) == value_bit(v2, width, width - 1 - p));
        assert((width - 1 - (width - 1 - p)) as u16 == q);
        assert((q + 1) as u16 == (p + 1) as u16);
        lemma_shift_step(v1, q);
        lemma_shift_step(v2, q);
        assert((v1 >> q) & 1u16 <= 1u16 && (v2 >> q) & 1u16 <= 1u16) by (bit_vector);
        assert((v1 >> q) & 1u16 == (v2 >> q) & 1u16);
    }
}

/// Two values that fit in `width` bits and agree on each of those bits are equal.
pub proof fn lemma_bits_determine(v1: u16, v2: u16, width: nat)
    requires
        width <= 16,
        fits(v1, width),
        fits(v2, width),
        forall|j: int| 0 <= j < width ==> value_bit(v1, width, j) == value_bit(v2, width, j),
    ensures
        v1 == v2,
{
    lemma_high_bits_agree(v1, v2, width, 0);
    assert(v1 >> 0u16 == v1 && v2 >> 0u16 == v2) by (bit_vector);
}

proof fn lemma_set_bit(x: u8, s: u8, b: bool)
    requires
        s < 8,
    ensures
        ({
            let y = if b { x | (1u8 << s) } else { x & !(1u8 << s) };
            &&& ((y >> s) & 1u8 == 1u8) == b
            &&& forall|t: u8| t < 8 && t != s ==> ((y >> t) & 1u8) == ((x >> t) & 1u8)
        }),
{
    if b {
        let y = x | (1u8 << s);
        assert((y >> s) & 1u8 == 1u8) by (bit_vector)
            requires
                y == x | (1u8 << s),
                s < 8,
        ;
        assert forall|t: u8| t < 8 && t != s implies ((y >> t) & 1u8) == ((x >> t) & 1u8) by {
            assert(((y >> t) & 1u8) == ((x >> t) & 1u8)) by (bit_vector)
                requires
                    y == x | (1u8 << s),
                    s < 8,
                    t < 8,
                    t != s,
            ;
        }
    } else {
        let y = x & !(1u8 << s);
        assert((y >> s) & 1u8 == 0u8) by (bit_vector)
            requires
                y == x & !(1u8 << s),
                s < 8,
        ;
        assert forall|t: u8| t < 8 && t != s implies ((y >> t) & 1u8) == ((x >> t) & 1u8) by {
            assert(((y >> t) & 1u8) == ((x >> t) & 1u8)) by (bit_vector)
                requires
                    y == x & !(1u8 << s),
                    s < 8,
                    t < 8,
                    t != s,
            ;
        }
    }
}

/// Bytes whose eight bits all agree are equal.
pub proof fn lemma_bits_eq_byte(a: Seq<u8>, b: Seq<u8>, k: int)
    requires
        0 <= k < a.len(),
        a.len() == b.len(),
        forall|i: int| 8 * k <= i < 8 * k + 8 ==> bit_at(a, i) == bit_at(b, i),
    ensures
        a[k] == b[k],
{
    let x = a[k];
    let y = b[k];
    assert forall|t: u8| t < 8 implies ((x >> t) & 1u8) == ((y >> t) & 1u8) by {
        let i = 8 * k + 7 - t;
        assert(i / 8 == k && i % 8 == 7 - t);
        assert(bit_at(a, i) == bit_at(b, i));
        assert(((x >> t) & 1u8) <= 1u8 && ((y >> t) & 1u8) <= 1u8) by (bit_vector);
    }
    assert(((x >> 0u8) & 1u8) == ((y >> 0u8) & 1u8));
    assert(((x >> 1u8) & 1u8) == ((y >> 1u8) & 1u8));
    assert(((x >> 2u8) & 1u8) == ((y >> 2u8) & 1u8));
    assert(((x >> 3u8) & 1u8) == ((y >> 3u8) & 1u8));
    assert(((x >> 4u8) & 1u8) == ((y >> 4u8) & 1u8));
    assert(((x >> 5u8) & 1u8) == ((y >> 5u8) & 1u8));
    assert(((x >> 6u8) & 1u8) == ((y >> 6u8) & 1u8));
    assert(((x >> 7u8) & 1u8) == ((y >> 7u8) & 1u8));
    assert(x == y) by (bit_vector)
        requires
            ((x >> 0u8) & 1u8) == ((y >> 0u8) & 1u8),
            ((x >> 1u8) & 1u8) == ((y >> 1u8) & 1u8),
            ((x >> 2u8) & 1u8) == ((y >> 2u8) & 1u8),
            ((x >> 3u8) & 1u8) == ((y >> 3u8) & 1u8),
            ((x >> 4u8) & 1u8) == ((y >> 4u8) & 1u8),
            ((x >> 5u8) & 1u8) == ((y >> 5u8) & 1u8),
            ((x >> 6u8) & 1u8) == ((y >> 6u8) & 1u8),
            ((x >> 7u8) & 1u8) == ((y >> 7u8) & 1u8),
    ;
}

/// Writes the `width` low bits of `v` into `buf` at bit offset `start`, most
/// significant bit first, and leaves every other bit as it was.
pub fn write_bits(buf: &mut [u8; 8], start: usize, width: usize, v: u16)
    requires
        width <= 16,
        start + width <= 64,
    ensures
        holds_bits(final(buf)@, start as int, width as nat, v),
        same_bits_outside(final(buf)@, old(buf)@, start as int, start + width),
{
    let mut j: usize = 0;
    while j < width
        invariant
            j <= width <= 16,
            start + width <= 64,
            buf@.len() == 8,
            forall|k: int|
                0 <= k < j ==> bit_at(buf@, start + k) == value_bit(v, width as nat, k),
            same_bits_outside(buf@, old(buf)@, start as int, start + j),
        decreases width - j,
    {
        let pos = start + j;
        let idx = pos / 8;
        let s = (7 - pos % 8) as u8;
        let bit = (v >> ((width - 1 - j) as u16)) & 1u16 == 1u16;
        let x = buf[idx];
        let y = if bit {
            x | (1u8 << s)
        } else {
            x & !(1u8 << s)
        };
        proof {
            lemma_set_bit(x, s, bit);
        }
        let ghost before = buf@;
        buf[idx] = y;
        proof {
            assert(buf@ == before.update(idx as int, y));
            assert forall|i: int| 0 <= i < 64 && i != pos implies bit_at(buf@, i) == bit_at(
                before,
                i,
            ) by {
                if i / 8 == idx {
                    assert(((7 - i % 8) as u8) != s);
                }
            }
            assert(bit_at(buf@, pos as int) == bit);
        }
        j = j + 1;
    }
}

/// Reads `width` bits of `data` from bit offset `start`, most significant bit first.
pub fn read_bits(data: &[u8], start: usize, width: usize) -> (r: u16)
    requires
        width <= 16,
        start + width <= 8 * data@.len(),
        start + width <= usize::MAX,
    ensures
        holds_bits(data@, start as int, width as nat, r),
        fits(r, width as nat),
{
    let mut acc: u16 = 0;
    let mut j: usize = 0;
    assert(0u16 >> 0u16 == 0u16) by (bit_vector);
    while j < width
        invariant
            j <= width <= 16,
            start + width <= 8 * data@.len(),
            start + width <= usize::MAX,
            fits(acc, j as nat),
            forall|k: int| 0 <= k < j ==> bit_at(data@, start + k) == value_bit(acc, j as nat, k),
        decreases width - j,
    {
        let pos = start + j;
        let s = (7 - pos % 8) as u8;
        let b: u16 = ((data[pos / 8] >> s) & 1u8) as u16;
        let next = (acc << 1u16) | b;
        proof {
            let jj = j as u16;
            assert(b <= 1u16) by {
                let x = data@[(pos / 8) as int];
                assert(((x >> s) & 1u8) <= 1u8) by (bit_vector);
            }
            assert(bit_at(data@, pos as int) == (b == 1u16));
            assert((next >> 0u16) & 1u16 == b) by (bit_vector)
                requires
                    next == (acc << 1u16) | b,
                    b <= 1u16,
            ;
            assert forall|k: int| 0 <= k < j implies value_bit(next, (j + 1) as nat, k)
                == value_bit(acc, j as nat, k) by {
                let t = (j - 1 - k) as u16;
                assert(((j + 1) as nat - 1 - k) as u16 == (t + 1) as u16);
                assert(((next >> ((t + 1) as u16)) & 1u16) == ((acc >> t) & 1u16)) by (bit_vector)
                    requires
                        next == (acc << 1u16) | b,
                        b <= 1u16,
                        t < 15,
                ;
            }
            assert(value_bit(next, (j + 1) as nat, j as int) == (b == 1u16));
            assert forall|k: int| 0 <= k < j + 1 implies bit_at(data@, start + k) == #[trigger] value_bit(
                next,
                (j + 1) as nat,
                k,
            ) by {
                if k < j {
                    assert(value_bit(next, (j + 1) as nat, k) == value_bit(acc, j as nat, k));
                }
            }
            assert(fits(next, (j + 1) as nat)) by {
                if j + 1 < 16 {
                    assert(next >> ((jj + 1) as u16) == 0u16) by (bit_vector)
                        requires
                            next == (acc << 1u16) | b,
                            b <= 1u16,
                            jj < 15,
                            acc >> jj == 0u16,
                    ;
                }
            }
        }
        acc = next;
        j = j + 1;
    }
    acc
}

} // verus!
