//! One-bit-per-pixel frame buffers for the e-paper demo: a filled square
//! centred in an otherwise empty frame.
use vstd::prelude::*;

verus! {

/// Whether pixel `(x, y)` of a `width` by `height` frame lies in the
/// `side` by `side` square centred in it (offsets rounded down).
pub open spec fn in_centred_square(width: int, height: int, side: int, x: int, y: int) -> bool {
    let x0 = (width - side) / 2;
    let y0 = (height - side) / 2;
    x0 <= x < x0 + side && y0 <= y < y0 + side
}

/// Bit of pixel number `p`, counted row by row: 1 inside the square.
pub open spec fn pixel_bit(width: int, height: int, side: int, p: int) -> nat {
    if in_centred_square(width, height, side, p % width, p / width) {
        1
    } else {
        0
    }
}

/// The first `n` pixels of byte `i` packed most significant bit first:
/// pixel `8 * i` lands in the top bit of the full byte.
pub open spec fn packed_bits(width: int, height: int, side: int, i: int, n: nat) -> nat
    decreases n,
{
    if n == 0 {
        0
    } else {
        packed_bits(width, height, side, i, (n - 1) as nat) * 2 + pixel_bit(
            width,
            height,
            side,
            8 * i + n - 1,
        )
    }
}

/// `2^n`.
spec fn pow2(n: nat) -> nat
    decreases n,
{
    if n == 0 {
        1
    } else {
        2 * pow2((n - 1) as nat)
    }
}

/// A packed run of `n` bits stays below `2^n`.
proof fn lemma_packed_bits_bound(width: int, height: int, side: int, i: int, n: nat)
    ensures
        packed_bits(width, height, side, i, n) < pow2(n),
    decreases n,
{
    if n > 0 {
        lemma_packed_bits_bound(width, height, side, i, (n - 1) as nat);
    }
}

/// A frame of `width * height / 8` bytes, one bit per pixel, where exactly
/// the pixels of the centred `side` by `side` square are set.
pub fn centred_square_frame(width: u32, height: u32, side: u32) -> (r: Vec<u8>)
    requires
        0 < width,
        side <= width,
        side <= height,
        width * height <= u32::MAX,
    ensures
        r@.len() == width * height / 8,
        forall|i: int|
            0 <= i < r@.len() ==> #[trigger] r@[i] as nat == packed_bits(
                width as int,
                height as int,
                side as int,
                i,
                8,
            ),
{
    let n_bytes: u32 = width * height / 8;
    let x0: u32 = (width - side) / 2;
    let y0: u32 = (height - side) / 2;
    let mut r: Vec<u8> = Vec::new();
    let mut i: u32 = 0;
    while i < n_bytes
        invariant
            0 < width,
            side <= width,
            side <= height,
            width * height <= u32::MAX,
            n_bytes == width * height / 8,
            x0 == (width - side) / 2,
            y0 == (height - side) / 2,
            i <= n_bytes,
            r@.len() == i,
            forall|k: int|
                0 <= k < i ==> #[trigger] r@[k] as nat == packed_bits(
                    width as int,
                    height as int,
                    side as int,
                    k,
                    8,
                ),
        decreases n_bytes - i,
    {
        let mut acc: u32 = 0;
        let mut b: u32 = 0;
        while b < 8
            invariant
                0 < width,
                width * height <= u32::MAX,
                n_bytes == width * height / 8,
                x0 == (width - side) / 2,
                y0 == (height - side) / 2,
                i < n_bytes,
                b <= 8,
                acc as nat == packed_bits(width as int, height as int, side as int, i as int, b as nat),
            decreases 8 - b,
        {
            proof {
                lemma_packed_bits_bound(width as int, height as int, side as int, i as int, b as nat);
                assert(pow2(b as nat) <= 128) by {
                    reveal_with_fuel(pow2, 8);
                };
                assert(8 * (i as int) + 8 <= 8 * (n_bytes as int));
                assert(8 * (n_bytes as int) <= width * height);
            }
            let p: u32 = 8 * i + b;
            let x: u32 = p % width;
            let y: u32 = p / width;
            let bit: u32 = if x0 <= x && x < x0 + side && y0 <= y && y < y0 + side {
                1
            } else {
                0
            };
            acc = acc * 2 + bit;
            b = b + 1;
        }
        proof {
            lemma_packed_bits_bound(width as int, height as int, side as int, i as int, 8);
            assert(pow2(8) == 256) by {
                reveal_with_fuel(pow2, 9);
            };
        }
        r.push(acc as u8);
        i = i + 1;
    }
    r
}

} // verus!
