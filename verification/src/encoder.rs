//! The protocol encoder: from pixels to the pulse train of one frame.
//!
//! Every pixel is sent as the 24 bits of its wire word, most significant
//! first. A bit is a high pulse followed by a low pulse, whose lengths tell
//! a one from a zero. One reset pulse ends the frame.

use crate::color::Rgb;
use crate::timing::{Pulse, Timings};
use vstd::prelude::*;

verus! {

/// Bits sent for one pixel.
pub const BITS_PER_PIXEL: usize = 24;

/// Pulses sent for one pixel: a high and a low pulse for each bit.
pub const PULSES_PER_PIXEL: usize = 48;

/// The `k`-th bit that is sent for `pixel`, counting from 0.
pub open spec fn wire_bit(pixel: Rgb, k: int) -> bool {
    (pixel.packed() >> ((23 - k) as u32)) & 1 != 0
}

/// Bit `k` of a byte, counting from the most significant bit.
pub open spec fn byte_bit(byte: u8, k: int) -> bool {
    (byte >> ((7 - k) as u8)) & 1 != 0
}

/// The pulse pair of one bit.
pub open spec fn bit_pulses(timings: Timings, bit: bool) -> (Pulse, Pulse) {
    if bit {
        (timings.t1h, timings.t1l)
    } else {
        (timings.t0h, timings.t0l)
    }
}

/// Number of pulses in the train of `pixel_count` pixels.
pub open spec fn encoded_len(pixel_count: nat) -> nat {
    2 * 24 * pixel_count + 1
}

/// The pulse at position `i` of the train of `pixels`.
pub open spec fn pulse_at(timings: Timings, pixels: Seq<Rgb>, i: int) -> Pulse {
    if i >= 48 * pixels.len() {
        timings.rst
    } else {
        let pair = bit_pulses(timings, wire_bit(pixels[i / 48], (i % 48) / 2));
        if i % 2 == 0 {
            pair.0
        } else {
            pair.1
        }
    }
}

/// The pulse train of one frame.
pub open spec fn encoded(timings: Timings, pixels: Seq<Rgb>) -> Seq<Pulse> {
    Seq::new(encoded_len(pixels.len()), |i: int| pulse_at(timings, pixels, i))
}

/// The wire word is green, red, blue from the top byte down, and nothing
/// above them.
pub proof fn lemma_packed_bytes(pixel: Rgb)
    ensures
        pixel.packed() == pixel.g as u32 * 65_536 + pixel.r as u32 * 256 + pixel.b as u32,
{
    let r = pixel.r;
    let g = pixel.g;
    let b = pixel.b;
    assert((((g as u32) << 16) | ((r as u32) << 8) | (b as u32)) == g as u32 * 65_536 + r as u32
        * 256 + b as u32) by (bit_vector);
}

/// The bits go out green first, then red, then blue, each byte from its most
/// significant bit.
pub proof fn lemma_wire_order(pixel: Rgb, k: int)
    requires
        0 <= k < 24,
    ensures
        wire_bit(pixel, k) == if k < 8 {
            byte_bit(pixel.g, k)
        } else if k < 16 {
            byte_bit(pixel.r, k - 8)
        } else {
            byte_bit(pixel.b, k - 16)
        },
{
    let r = pixel.r;
    let g = pixel.g;
    let b = pixel.b;
    let n: u32 = k as u32;
    assert(n < 8 ==> (((((g as u32) << 16) | ((r as u32) << 8) | (b as u32)) >> ((23 - n) as u32))
        & 1 != 0) == ((g >> ((7 - n) as u8)) & 1 != 0)) by (bit_vector);
    assert(8 <= n < 16 ==> (((((g as u32) << 16) | ((r as u32) << 8) | (b as u32)) >> ((23
        - n) as u32)) & 1 != 0) == ((r >> ((15 - n) as u8)) & 1 != 0)) by (bit_vector);
    assert(16 <= n < 24 ==> (((((g as u32) << 16) | ((r as u32) << 8) | (b as u32)) >> ((23
        - n) as u32)) & 1 != 0) == ((b >> ((23 - n) as u8)) & 1 != 0)) by (bit_vector);
}

/// Encodes `pixels` as the pulse train of one frame.
///
/// The train holds, for each pixel in order, the pulse pairs of its 24 wire
/// bits, and then the reset pulse: `2 * 24 * pixels.len() + 1` pulses.
pub fn encode(timings: &Timings, pixels: &[Rgb]) -> (train: Vec<Pulse>)
    ensures
        train@ == encoded(*timings, pixels@),
        train@.len() == 2 * 24 * pixels@.len() + 1,
{
    let mut train: Vec<Pulse> = Vec::new();
    let mut i: usize = 0;
    while i < pixels.len()
        invariant
            i <= pixels@.len(),
            train@.len() == 48 * i,
            forall|j: int| 0 <= j < train@.len() ==> train@[j] == pulse_at(*timings, pixels@, j),
        decreases pixels@.len() - i,
    {
        let word: u32 = pixels[i].to_packed();
        let mut k: usize = 0;
        while k < BITS_PER_PIXEL
            invariant
                i < pixels@.len(),
                k <= 24,
                word == pixels@[i as int].packed(),
                train@.len() == 48 * i + 2 * k,
                forall|j: int|
                    0 <= j < train@.len() ==> train@[j] == pulse_at(*timings, pixels@, j),
            decreases 24 - k,
        {
            let shift: u32 = (23 - k) as u32;
            let bit: bool = (word >> shift) & 1 != 0;
            let ghost at: int = 48 * i + 2 * k;
            assert(at / 48 == i && (at % 48) / 2 == k && at % 2 == 0);
            assert((at + 1) / 48 == i && ((at + 1) % 48) / 2 == k && (at + 1) % 2 == 1);
            assert(bit == wire_bit(pixels@[i as int], k as int));
            if bit {
                train.push(timings.t1h);
                train.push(timings.t1l);
            } else {
                train.push(timings.t0h);
                train.push(timings.t0l);
            }
            k += 1;
        }
        i += 1;
    }
    train.push(timings.rst);
    assert(train@ =~= encoded(*timings, pixels@));
    train
}

} // verus!
