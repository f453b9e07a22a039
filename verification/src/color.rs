//! Colors as the drawing layer reads them: four bytes packed big-endian
//! into one `0xRRGGBBAA` word.

use vstd::prelude::*;

verus! {

/// The value of a byte sequence read as a big-endian number.
pub open spec fn big_endian_value(bytes: Seq<u8>) -> nat
    decreases bytes.len(),
{
    if bytes.len() == 0 {
        0
    } else {
        big_endian_value(bytes.drop_last()) * 256 + bytes.last() as nat
    }
}

/// The packed `0xRRGGBBAA` word of a color given as `[red, green, blue, alpha]`.
pub open spec fn packed_color(color: Seq<u8>) -> nat {
    big_endian_value(color)
}

/// Opaque black, the color of the ticks, the center pin and the hands.
pub const OPAQUE_BLACK: u32 = 0x0000_00ff;

/// Fully transparent, the color the window is cleared with.
pub const TRANSPARENT: u32 = 0x0000_0000;

proof fn lemma_big_endian_bound(bytes: Seq<u8>)
    ensures
        big_endian_value(bytes) < vstd::arithmetic::power2::pow2(8 * bytes.len()),
    decreases bytes.len(),
{
    vstd::arithmetic::power2::lemma_pow2_pos(8 * bytes.len());
    if bytes.len() > 0 {
        let n: nat = (bytes.len() - 1) as nat;
        lemma_big_endian_bound(bytes.drop_last());
        vstd::arithmetic::power2::lemma_pow2_adds(8 * n, 8);
        vstd::arithmetic::power2::lemma2_to64();
        assert(8 * bytes.len() == 8 * n + 8);
        let prev = big_endian_value(bytes.drop_last());
        assert(prev * 256 + bytes.last() < vstd::arithmetic::power2::pow2(8 * n) * 256) by (nonlinear_arith)
            requires
                prev < vstd::arithmetic::power2::pow2(8 * n),
                bytes.last() < 256,
        ;
    }
}

/// Packs `[red, green, blue, alpha]` into the word `0xRRGGBBAA`, the first
/// byte ending up in the most significant position.
pub fn pack_rgba(color: [u8; 4]) -> (packed: u32)
    ensures
        packed as nat == packed_color(color@),
{
    let mut acc: u32 = 0;
    let mut i: usize = 0;
    proof {
        vstd::arithmetic::power2::lemma2_to64();
    }
    while i < 4
        invariant
            0 <= i <= 4,
            acc as nat == big_endian_value(color@.take(i as int)),
            acc < vstd::arithmetic::power2::pow2(8 * i as nat),
        decreases 4 - i,
    {
        proof {
            vstd::arithmetic::power2::lemma2_to64();
            assert(color@.take(i + 1).drop_last() =~= color@.take(i as int));
        }
        let c: u32 = color[i] as u32;
        assert(acc < 0x100_0000);
        let shifted: u32 = acc << 8;
        assert(shifted == acc * 256) by (bit_vector)
            requires
                acc < 0x100_0000,
                shifted == acc << 8,
        ;
        acc = shifted + c;
        i = i + 1;
        proof {
            lemma_big_endian_bound(color@.take(i as int));
        }
    }
    assert(color@.take(4) =~= color@);
    acc
}

/// The packed value of four bytes, written out position by position.
proof fn lemma_packed_color_expanded(color: Seq<u8>)
    requires
        color.len() == 4,
    ensures
        packed_color(color) == color[0] * 0x100_0000 + color[1] * 0x1_0000 + color[2] * 0x100
            + color[3],
{
    let s3 = color.drop_last();
    let s2 = s3.drop_last();
    let s1 = s2.drop_last();
    let s0 = s1.drop_last();
    assert(s0.len() == 0);
    assert(big_endian_value(s0) == 0);
    assert(s1.last() == color[0]);
    assert(s2.last() == color[1]);
    assert(s3.last() == color[2]);
    assert(color.last() == color[3]);
    assert(big_endian_value(s1) == color[0] as nat);
    assert(big_endian_value(s2) == color[0] * 256 + color[1]);
    assert(big_endian_value(s3) == (color[0] * 256 + color[1]) * 256 + color[2]);
}

/// Packing keeps every channel whole and in its place: shifting the packed
/// word right by 24, 16, 8 and 0 bits and keeping the low byte gives back
/// red, green, blue and alpha.
pub proof fn lemma_packed_channels(color: [u8; 4], packed: u32)
    requires
        packed as nat == packed_color(color@),
    ensures
        (packed >> 24u32) & 0xffu32 == color[0] as u32,
        (packed >> 16u32) & 0xffu32 == color[1] as u32,
        (packed >> 8u32) & 0xffu32 == color[2] as u32,
        packed & 0xffu32 == color[3] as u32,
{
    lemma_packed_color_expanded(color@);
    let r: u32 = color[0] as u32;
    let g: u32 = color[1] as u32;
    let b: u32 = color[2] as u32;
    let a: u32 = color[3] as u32;
    assert(packed == r * 0x100_0000 + g * 0x1_0000 + b * 0x100 + a);
    assert((packed >> 24u32) & 0xffu32 == r && (packed >> 16u32) & 0xffu32 == g && (packed
        >> 8u32) & 0xffu32 == b && packed & 0xffu32 == a) by (bit_vector)
        requires
            r < 256,
            g < 256,
            b < 256,
            a < 256,
            packed == r * 0x100_0000 + g * 0x1_0000 + b * 0x100 + a,
    ;
}

} // verus!
