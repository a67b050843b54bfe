//! Little endian encoding of integers, and the facts that let a decoder undo
//! an encoder.
use vstd::prelude::*;

verus! {

/// Byte `j` (counting from the least significant) of `x`.
pub open spec fn byte(x: u64, j: u64) -> u8 {
    ((x >> (8 * j)) & 0xffu64) as u8
}

/// The integer whose little endian bytes are `b0` to `b7`.
pub open spec fn compose8(b0: u8, b1: u8, b2: u8, b3: u8, b4: u8, b5: u8, b6: u8, b7: u8) -> u64 {
    (b0 as u64) | ((b1 as u64) << 8u64) | ((b2 as u64) << 16u64) | ((b3 as u64) << 24u64) | ((
    b4 as u64) << 32u64) | ((b5 as u64) << 40u64) | ((b6 as u64) << 48u64) | ((b7 as u64)
        << 56u64)
}

/// The integer whose little endian bytes are `b0` to `b3`.
pub open spec fn compose4(b0: u8, b1: u8, b2: u8, b3: u8) -> u64 {
    (b0 as u64) | ((b1 as u64) << 8u64) | ((b2 as u64) << 16u64) | ((b3 as u64) << 24u64)
}

/// The integer whose little endian bytes are `b0` and `b1`.
pub open spec fn compose2(b0: u8, b1: u8) -> u64 {
    (b0 as u64) | ((b1 as u64) << 8u64)
}

/// Composing eight bytes and taking them apart again gives them back.
pub proof fn lemma_compose8_bytes(b0: u8, b1: u8, b2: u8, b3: u8, b4: u8, b5: u8, b6: u8, b7: u8)
    ensures
        ({
            let x = compose8(b0, b1, b2, b3, b4, b5, b6, b7);
            &&& byte(x, 0) == b0 && byte(x, 1) == b1 && byte(x, 2) == b2 && byte(x, 3) == b3
            &&& byte(x, 4) == b4 && byte(x, 5) == b5 && byte(x, 6) == b6 && byte(x, 7) == b7
        }),
{
    assert({
        let x = (b0 as u64) | ((b1 as u64) << 8u64) | ((b2 as u64) << 16u64) | ((b3 as u64)
            << 24u64) | ((b4 as u64) << 32u64) | ((b5 as u64) << 40u64) | ((b6 as u64) << 48u64)
            | ((b7 as u64) << 56u64);
        &&& ((x >> 0u64) & 0xffu64) as u8 == b0 && ((x >> 8u64) & 0xffu64) as u8 == b1
        &&& ((x >> 16u64) & 0xffu64) as u8 == b2 && ((x >> 24u64) & 0xffu64) as u8 == b3
        &&& ((x >> 32u64) & 0xffu64) as u8 == b4 && ((x >> 40u64) & 0xffu64) as u8 == b5
        &&& ((x >> 48u64) & 0xffu64) as u8 == b6 && ((x >> 56u64) & 0xffu64) as u8 == b7
    }) by (bit_vector);
}

/// Composing four bytes and taking them apart again gives them back.
pub proof fn lemma_compose4_bytes(b0: u8, b1: u8, b2: u8, b3: u8)
    ensures
        ({
            let x = compose4(b0, b1, b2, b3);
            &&& x < 0x1_0000_0000
            &&& byte(x, 0) == b0 && byte(x, 1) == b1 && byte(x, 2) == b2 && byte(x, 3) == b3
        }),
{
    assert({
        let x = (b0 as u64) | ((b1 as u64) << 8u64) | ((b2 as u64) << 16u64) | ((b3 as u64)
            << 24u64);
        &&& x < 0x1_0000_0000u64
        &&& ((x >> 0u64) & 0xffu64) as u8 == b0 && ((x >> 8u64) & 0xffu64) as u8 == b1
        &&& ((x >> 16u64) & 0xffu64) as u8 == b2 && ((x >> 24u64) & 0xffu64) as u8 == b3
    }) by (bit_vector);
}

/// Composing two bytes and taking them apart again gives them back.
pub proof fn lemma_compose2_bytes(b0: u8, b1: u8)
    ensures
        ({
            let x = compose2(b0, b1);
            &&& x < 0x1_0000
            &&& byte(x, 0) == b0 && byte(x, 1) == b1
        }),
{
    assert({
        let x = (b0 as u64) | ((b1 as u64) << 8u64);
        &&& x < 0x1_0000u64
        &&& ((x >> 0u64) & 0xffu64) as u8 == b0 && ((x >> 8u64) & 0xffu64) as u8 == b1
    }) by (bit_vector);
}

/// Eight equal bytes make equal integers.
pub proof fn lemma_bytes8_injective(x: u64, y: u64)
    requires
        byte(x, 0) == byte(y, 0),
        byte(x, 1) == byte(y, 1),
        byte(x, 2) == byte(y, 2),
        byte(x, 3) == byte(y, 3),
        byte(x, 4) == byte(y, 4),
        byte(x, 5) == byte(y, 5),
        byte(x, 6) == byte(y, 6),
        byte(x, 7) == byte(y, 7),
    ensures
        x == y,
{
    assert(x == y) by (bit_vector)
        requires
            ((x >> 0u64) & 0xffu64) as u8 == ((y >> 0u64) & 0xffu64) as u8,
            ((x >> 8u64) & 0xffu64) as u8 == ((y >> 8u64) & 0xffu64) as u8,
            ((x >> 16u64) & 0xffu64) as u8 == ((y >> 16u64) & 0xffu64) as u8,
            ((x >> 24u64) & 0xffu64) as u8 == ((y >> 24u64) & 0xffu64) as u8,
            ((x >> 32u64) & 0xffu64) as u8 == ((y >> 32u64) & 0xffu64) as u8,
            ((x >> 40u64) & 0xffu64) as u8 == ((y >> 40u64) & 0xffu64) as u8,
            ((x >> 48u64) & 0xffu64) as u8 == ((y >> 48u64) & 0xffu64) as u8,
            ((x >> 56u64) & 0xffu64) as u8 == ((y >> 56u64) & 0xffu64) as u8,
    ;
}

/// Four equal bytes make equal integers, for integers of 32 bits.
pub proof fn lemma_bytes4_injective(x: u64, y: u64)
    requires
        x < 0x1_0000_0000,
        y < 0x1_0000_0000,
        byte(x, 0) == byte(y, 0),
        byte(x, 1) == byte(y, 1),
        byte(x, 2) == byte(y, 2),
        byte(x, 3) == byte(y, 3),
    ensures
        x == y,
{
    assert(x == y) by (bit_vector)
        requires
            x < 0x1_0000_0000u64,
            y < 0x1_0000_0000u64,
            ((x >> 0u64) & 0xffu64) as u8 == ((y >> 0u64) & 0xffu64) as u8,
            ((x >> 8u64) & 0xffu64) as u8 == ((y >> 8u64) & 0xffu64) as u8,
            ((x >> 16u64) & 0xffu64) as u8 == ((y >> 16u64) & 0xffu64) as u8,
            ((x >> 24u64) & 0xffu64) as u8 == ((y >> 24u64) & 0xffu64) as u8,
    ;
}

/// Two equal bytes make equal integers, for integers of 16 bits.
pub proof fn lemma_bytes2_injective(x: u64, y: u64)
    requires
        x < 0x1_0000,
        y < 0x1_0000,
        byte(x, 0) == byte(y, 0),
        byte(x, 1) == byte(y, 1),
    ensures
        x == y,
{
    assert(x == y) by (bit_vector)
        requires
            x < 0x1_0000u64,
            y < 0x1_0000u64,
            ((x >> 0u64) & 0xffu64) as u8 == ((y >> 0u64) & 0xffu64) as u8,
            ((x >> 8u64) & 0xffu64) as u8 == ((y >> 8u64) & 0xffu64) as u8,
    ;
}

/// The `width` least significant bytes of `x`, least significant first.
pub open spec fn le_seq(x: u64, width: nat) -> Seq<u8> {
    Seq::new(width, |j: int| byte(x, j as u64))
}

/// The little endian encodings of the words of `s`, each `width` bytes
/// long, one after the other.
pub open spec fn words_le(s: Seq<u64>, width: nat) -> Seq<u8>
    decreases s.len(),
{
    if s.len() == 0 {
        Seq::empty()
    } else {
        words_le(s.drop_last(), width) + le_seq(s.last(), width)
    }
}

/// The encoding of `n` words is `width * n` bytes long.
pub proof fn lemma_words_le_len(s: Seq<u64>, width: nat)
    ensures
        words_le(s, width).len() == width * s.len(),
    decreases s.len(),
{
    if s.len() > 0 {
        lemma_words_le_len(s.drop_last(), width);
        assert(width * (s.len() - 1) + width == width * s.len()) by (nonlinear_arith);
    }
}

/// Word `i` of `s` is encoded at bytes `width * i` to `width * (i + 1)`.
pub proof fn lemma_words_le_chunk(s: Seq<u64>, width: nat, i: int)
    requires
        0 <= i < s.len(),
    ensures
        width * i + width <= words_le(s, width).len(),
        words_le(s, width).subrange(width * i, width * i + width) == le_seq(s[i], width),
    decreases s.len(),
{
    lemma_words_le_len(s, width);
    lemma_words_le_len(s.drop_last(), width);
    assert(width * i + width <= width * s.len()) by (nonlinear_arith)
        requires
            0 <= i < s.len(),
    ;
    let prefix = words_le(s.drop_last(), width);
    if i == s.len() - 1 {
        assert(prefix.len() == width * i);
        assert(words_le(s, width).subrange(width * i, width * i + width) =~= le_seq(s[i], width));
    } else {
        lemma_words_le_chunk(s.drop_last(), width, i);
        assert(width * i + width <= prefix.len());
        assert(words_le(s, width).subrange(width * i, width * i + width) =~= prefix.subrange(
            width * i,
            width * i + width,
        ));
    }
}

/// Bytes whose every chunk of `width` is the encoding of the corresponding
/// word of `s` are the encoding of `s`.
pub proof fn lemma_words_le_from_chunks(b: Seq<u8>, s: Seq<u64>, width: nat)
    requires
        b.len() == width * s.len(),
        forall|i: int|
            0 <= i < s.len() ==> b.subrange(width * i, width * i + width) == le_seq(
                #[trigger] s[i],
                width,
            ),
    ensures
        b == words_le(s, width),
    decreases s.len(),
{
    if s.len() == 0 {
        assert(b =~= Seq::<u8>::empty());
    } else {
        let n = s.len() - 1;
        assert(width * n + width == width * s.len() && width * n <= width * s.len())
            by (nonlinear_arith)
            requires
                n + 1 == s.len(),
        ;
        let front = b.subrange(0, width * n);
        assert forall|i: int| 0 <= i < s.drop_last().len() implies front.subrange(
            width * i,
            width * i + width,
        ) == le_seq(#[trigger] s.drop_last()[i], width) by {
            assert(s.drop_last()[i] == s[i]);
            assert(width * i + width <= width * n) by (nonlinear_arith)
                requires
                    0 <= i < n,
            ;
            assert(0 <= width * i) by (nonlinear_arith)
                requires
                    0 <= i,
            ;
            assert(front.subrange(width * i, width * i + width) =~= b.subrange(
                width * i,
                width * i + width,
            ));
        }
        lemma_words_le_from_chunks(front, s.drop_last(), width);
        assert(b.subrange(width * n, width * n + width) == le_seq(s[n], width));
        assert(b =~= front + b.subrange(width * n, width * n + width));
    }
}

/// Appends the `width` least significant bytes of `x`, least significant
/// first.
pub fn push_le(v: &mut Vec<u8>, x: u64, width: u64)
    requires
        width <= 8,
    ensures
        final(v)@ == old(v)@ + le_seq(x, width as nat),
{
    let ghost start = v@;
    let mut j: u64 = 0;
    while j < width
        invariant
            j <= width <= 8,
            v@ == start + le_seq(x, j as nat),
        decreases width - j,
    {
        let b = ((x >> (8 * j)) & 0xff) as u8;
        v.push(b);
        j = j + 1;
        assert(v@ =~= start + le_seq(x, j as nat));
    }
}

/// The 64-bit integer encoded at bytes `o` to `o + 8`.
pub fn read_le8(b: &[u8], o: usize) -> (x: u64)
    requires
        o + 8 <= b@.len(),
    ensures
        le_seq(x, 8) == b@.subrange(o as int, o + 8),
{
    let x = (b[o] as u64) | ((b[o + 1] as u64) << 8u64) | ((b[o + 2] as u64) << 16u64) | ((b[o
        + 3] as u64) << 24u64) | ((b[o + 4] as u64) << 32u64) | ((b[o + 5] as u64) << 40u64) | ((
    b[o + 6] as u64) << 48u64) | ((b[o + 7] as u64) << 56u64);
    proof {
        lemma_compose8_bytes(
            b@[o as int],
            b@[o + 1],
            b@[o + 2],
            b@[o + 3],
            b@[o + 4],
            b@[o + 5],
            b@[o + 6],
            b@[o + 7],
        );
        assert(le_seq(x, 8) =~= b@.subrange(o as int, o + 8));
    }
    x
}

/// The 32-bit integer encoded at bytes `o` to `o + 4`.
pub fn read_le4(b: &[u8], o: usize) -> (x: u32)
    requires
        o + 4 <= b@.len(),
    ensures
        le_seq(x as u64, 4) == b@.subrange(o as int, o + 4),
{
    let w = (b[o] as u64) | ((b[o + 1] as u64) << 8u64) | ((b[o + 2] as u64) << 16u64) | ((b[o
        + 3] as u64) << 24u64);
    proof {
        lemma_compose4_bytes(b@[o as int], b@[o + 1], b@[o + 2], b@[o + 3]);
    }
    let x = w as u32;
    assert(le_seq(x as u64, 4) =~= b@.subrange(o as int, o + 4));
    x
}

/// The 16-bit integer encoded at bytes `o` to `o + 2`.
pub fn read_le2(b: &[u8], o: usize) -> (x: u16)
    requires
        o + 2 <= b@.len(),
    ensures
        le_seq(x as u64, 2) == b@.subrange(o as int, o + 2),
{
    let w = (b[o] as u64) | ((b[o + 1] as u64) << 8u64);
    proof {
        lemma_compose2_bytes(b@[o as int], b@[o + 1]);
    }
    let x = w as u16;
    assert(le_seq(x as u64, 2) =~= b@.subrange(o as int, o + 2));
    x
}

} // verus!
