use vstd::prelude::*;

verus! {

/// Bytes that one pixel takes in the streaming texture.
pub const BYTES_PER_PIXEL: usize = 4;

/// The byte written at `offset` bytes into a row whose pixels take
/// `row_bytes` bytes: a horizontal ramp over the pixel bytes, and zero in the
/// padding that the row stride may add after them.
pub open spec fn fill_byte(offset: nat, row_bytes: nat) -> u8 {
    if offset < row_bytes {
        (offset % 256) as u8
    } else {
        0
    }
}

/// `pixels` is a locked texture of rows `pitch` bytes apart, each holding
/// `width` pixels, and every byte follows the fill rule.
pub open spec fn is_filled(pixels: Seq<u8>, width: nat, pitch: nat) -> bool {
    forall|i: int|
        #![trigger pixels[i]]
        0 <= i < pixels.len() ==> pixels[i] == fill_byte(
            (i % (pitch as int)) as nat,
            width * (BYTES_PER_PIXEL as nat),
        )
}

/// The byte at `offset` bytes into row `row` of a buffer with the given stride.
pub open spec fn byte_at(pixels: Seq<u8>, pitch: nat, row: nat, offset: nat) -> u8 {
    pixels[(row * pitch + offset) as int]
}

/// Fills a locked pixel buffer whose rows are `pitch` bytes apart and hold
/// `width` pixels each. Every byte gets its value from its position in its
/// row alone.
pub fn fill_pixels(pixels: &mut [u8], width: usize, pitch: usize)
    requires
        pitch > 0,
        width * BYTES_PER_PIXEL <= pitch,
    ensures
        final(pixels)@.len() == old(pixels)@.len(),
        is_filled(final(pixels)@, width as nat, pitch as nat),
{
    let row_bytes: usize = width * BYTES_PER_PIXEL;
    let len: usize = pixels.len();
    let mut i: usize = 0;
    let mut col: usize = 0;
    while i < len
        invariant
            pixels@.len() == len,
            row_bytes == width * BYTES_PER_PIXEL,
            row_bytes <= pitch,
            pitch > 0,
            i <= len,
            col < pitch,
            col as int == (i as int) % (pitch as int),
            forall|j: int|
                #![trigger pixels@[j]]
                0 <= j < i ==> pixels@[j] == fill_byte(
                    (j % (pitch as int)) as nat,
                    row_bytes as nat,
                ),
        decreases len - i,
    {
        let value: u8 = if col < row_bytes {
            (col % 256) as u8
        } else {
            0
        };
        pixels[i] = value;
        proof {
            let p = pitch as int;
            if col + 1 < pitch {
                assert((i as int + 1) % p == col as int + 1) by {
                    vstd::arithmetic::div_mod::lemma_mod_add_multiples_vanish(i as int + 1, p);
                    vstd::arithmetic::div_mod::lemma_fundamental_div_mod(i as int, p);
                    vstd::arithmetic::div_mod::lemma_fundamental_div_mod_converse(
                        i as int + 1,
                        p,
                        (i as int) / p,
                        col as int + 1,
                    );
                }
            } else {
                assert((i as int + 1) % p == 0) by {
                    let q = (i as int) / p;
                    vstd::arithmetic::div_mod::lemma_fundamental_div_mod(i as int, p);
                    assert((q + 1) * p == p * q + p) by (nonlinear_arith);
                    vstd::arithmetic::div_mod::lemma_fundamental_div_mod_converse(
                        i as int + 1,
                        p,
                        (i as int) / p + 1,
                        0,
                    );
                }
            }
        }
        col = if col + 1 < pitch {
            col + 1
        } else {
            0
        };
        i = i + 1;
    }
}

/// Two buffers of one size that both follow the fill rule for the same width
/// and stride are the same bytes: the fill depends on the dimensions and the
/// stride alone.
pub proof fn lemma_fill_deterministic(a: Seq<u8>, b: Seq<u8>, width: nat, pitch: nat)
    requires
        pitch > 0,
        a.len() == b.len(),
        is_filled(a, width, pitch),
        is_filled(b, width, pitch),
    ensures
        a == b,
{
    assert(a =~= b);
}

/// In a filled buffer the byte at a given row and offset within the row is the
/// fill value of that offset, whatever the row.
pub proof fn lemma_fill_by_coordinates(
    pixels: Seq<u8>,
    width: nat,
    pitch: nat,
    row: nat,
    offset: nat,
)
    requires
        offset < pitch,
        row * pitch + offset < pixels.len(),
        is_filled(pixels, width, pitch),
    ensures
        byte_at(pixels, pitch, row, offset) == fill_byte(offset, width * (BYTES_PER_PIXEL as nat)),
{
    let i = (row * pitch + offset) as int;
    assert(i % (pitch as int) == offset as int) by {
        vstd::arithmetic::div_mod::lemma_fundamental_div_mod_converse(
            i,
            pitch as int,
            row as int,
            offset as int,
        );
    }
    assert(pixels[i] == fill_byte((i % (pitch as int)) as nat, width * (BYTES_PER_PIXEL as nat)));
}

} // verus!
