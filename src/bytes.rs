//! Reading unsigned integers of fixed width from a byte buffer in either
//! byte order.
use vstd::prelude::*;

verus! {

/// Value of the two bytes at `i`, least significant first.
pub open spec fn le16(b: Seq<u8>, i: int) -> int {
    b[i] + b[i + 1] * 256
}

/// Value of the four bytes at `i`, least significant first.
pub open spec fn le32(b: Seq<u8>, i: int) -> int {
    le16(b, i) + le16(b, i + 2) * 0x1_0000
}

/// Value of the eight bytes at `i`, least significant first.
pub open spec fn le64(b: Seq<u8>, i: int) -> int {
    le32(b, i) + le32(b, i + 4) * 0x1_0000_0000
}

/// Value of the two bytes at `i`, most significant first.
pub open spec fn be16(b: Seq<u8>, i: int) -> int {
    b[i] * 256 + b[i + 1]
}

/// Value of the four bytes at `i`, most significant first.
pub open spec fn be32(b: Seq<u8>, i: int) -> int {
    be16(b, i) * 0x1_0000 + be16(b, i + 2)
}

/// Value of the eight bytes at `i`, most significant first.
pub open spec fn be64(b: Seq<u8>, i: int) -> int {
    be32(b, i) * 0x1_0000_0000 + be32(b, i + 4)
}

/// Half-word at `i` in the given byte order.
pub open spec fn half_at(b: Seq<u8>, i: int, big: bool) -> u16 {
    (if big { be16(b, i) } else { le16(b, i) }) as u16
}

/// Word at `i` in the given byte order.
pub open spec fn word_at(b: Seq<u8>, i: int, big: bool) -> u32 {
    (if big { be32(b, i) } else { le32(b, i) }) as u32
}

/// Extended word at `i` in the given byte order.
pub open spec fn xword_at(b: Seq<u8>, i: int, big: bool) -> u64 {
    (if big { be64(b, i) } else { le64(b, i) }) as u64
}

/// Reads the half-word at `i`.
pub fn read_half(b: &[u8], i: usize, big: bool) -> (r: u16)
    requires
        i + 2 <= b.len(),
    ensures
        r == half_at(b@, i as int, big),
        r as int == (if big { be16(b@, i as int) } else { le16(b@, i as int) }),
{
    let x0 = b[i] as u16;
    let x1 = b[i + 1] as u16;
    if big {
        x0 * 256 + x1
    } else {
        x1 * 256 + x0
    }
}

/// Reads the word at `i`.
pub fn read_word(b: &[u8], i: usize, big: bool) -> (r: u32)
    requires
        i + 4 <= b.len(),
    ensures
        r == word_at(b@, i as int, big),
        r as int == (if big { be32(b@, i as int) } else { le32(b@, i as int) }),
{
    let h0 = read_half(b, i, big) as u32;
    let h1 = read_half(b, i + 2, big) as u32;
    if big {
        h0 * 0x1_0000 + h1
    } else {
        h1 * 0x1_0000 + h0
    }
}

/// Reads the extended word at `i`.
pub fn read_xword(b: &[u8], i: usize, big: bool) -> (r: u64)
    requires
        i + 8 <= b.len(),
    ensures
        r == xword_at(b@, i as int, big),
        r as int == (if big { be64(b@, i as int) } else { le64(b@, i as int) }),
{
    let w0 = read_word(b, i, big) as u64;
    let w1 = read_word(b, i + 4, big) as u64;
    if big {
        w0 * 0x1_0000_0000 + w1
    } else {
        w1 * 0x1_0000_0000 + w0
    }
}

/// The two bytes of the half-word `v` in the given byte order.
pub open spec fn half_bytes(v: int, big: bool) -> Seq<u8> {
    if big {
        seq![(v / 256) as u8, (v % 256) as u8]
    } else {
        seq![(v % 256) as u8, (v / 256) as u8]
    }
}

/// The four bytes of the word `v` in the given byte order.
pub open spec fn word_bytes(v: int, big: bool) -> Seq<u8> {
    if big {
        half_bytes(v / 0x1_0000, big) + half_bytes(v % 0x1_0000, big)
    } else {
        half_bytes(v % 0x1_0000, big) + half_bytes(v / 0x1_0000, big)
    }
}

/// The eight bytes of the extended word `v` in the given byte order.
pub open spec fn xword_bytes(v: int, big: bool) -> Seq<u8> {
    if big {
        word_bytes(v / 0x1_0000_0000, big) + word_bytes(v % 0x1_0000_0000, big)
    } else {
        word_bytes(v % 0x1_0000_0000, big) + word_bytes(v / 0x1_0000_0000, big)
    }
}

/// Reading a half-word back from its bytes gives the half-word.
pub proof fn lemma_half_bytes(b: Seq<u8>, i: int, v: u16, big: bool)
    requires
        0 <= i,
        i + 2 <= b.len(),
        b.subrange(i, i + 2) == half_bytes(v as int, big),
    ensures
        half_at(b, i, big) == v,
{
    assert(b[i] == b.subrange(i, i + 2)[0]);
    assert(b[i + 1] == b.subrange(i, i + 2)[1]);
}

/// Reading a word back from its bytes gives the word.
pub proof fn lemma_word_bytes(b: Seq<u8>, i: int, v: u32, big: bool)
    requires
        0 <= i,
        i + 4 <= b.len(),
        b.subrange(i, i + 4) == word_bytes(v as int, big),
    ensures
        word_at(b, i, big) == v,
{
    let hi = (v / 0x1_0000) as u16;
    let lo = (v % 0x1_0000) as u16;
    let (first, second) = if big { (hi, lo) } else { (lo, hi) };
    assert(b.subrange(i, i + 2) =~= b.subrange(i, i + 4).subrange(0, 2));
    assert(b.subrange(i + 2, i + 4) =~= b.subrange(i, i + 4).subrange(2, 4));
    assert(word_bytes(v as int, big).subrange(0, 2) =~= half_bytes(first as int, big));
    assert(word_bytes(v as int, big).subrange(2, 4) =~= half_bytes(second as int, big));
    lemma_half_bytes(b, i, first, big);
    lemma_half_bytes(b, i + 2, second, big);
}

/// Reading an extended word back from its bytes gives the extended word.
pub proof fn lemma_xword_bytes(b: Seq<u8>, i: int, v: u64, big: bool)
    requires
        0 <= i,
        i + 8 <= b.len(),
        b.subrange(i, i + 8) == xword_bytes(v as int, big),
    ensures
        xword_at(b, i, big) == v,
{
    let hi = (v / 0x1_0000_0000) as u32;
    let lo = (v % 0x1_0000_0000) as u32;
    let (first, second) = if big { (hi, lo) } else { (lo, hi) };
    assert(b.subrange(i, i + 4) =~= b.subrange(i, i + 8).subrange(0, 4));
    assert(b.subrange(i + 4, i + 8) =~= b.subrange(i, i + 8).subrange(4, 8));
    assert(xword_bytes(v as int, big).subrange(0, 4) =~= word_bytes(first as int, big));
    assert(xword_bytes(v as int, big).subrange(4, 8) =~= word_bytes(second as int, big));
    lemma_word_bytes(b, i, first, big);
    lemma_word_bytes(b, i + 4, second, big);
}

} // verus!
