//! In-place channel reordering of packed 8-bit pixel buffers.

use vstd::prelude::*;
use crate::pixel_format::PixelFormat;

verus! {

/// Number of leading bytes of a buffer of `len` bytes that belong to whole
/// four-byte pixels.
pub open spec fn whole_pixel_bytes(len: nat) -> nat {
    (len - len % 4) as nat
}

/// The buffer `s` with the first and third byte of every whole four-byte
/// pixel exchanged. Bytes after the last whole pixel stay where they are.
pub open spec fn swap_red_blue(s: Seq<u8>) -> Seq<u8> {
    Seq::new(
        s.len(),
        |i: int|
            if i < whole_pixel_bytes(s.len()) {
                if i % 4 == 0 {
                    s[i + 2]
                } else if i % 4 == 2 {
                    s[i - 2]
                } else {
                    s[i]
                }
            } else {
                s[i]
            },
    )
}

/// What a buffer in `format` holds once it has been brought to RGBA order.
pub open spec fn rgba_ordered(s: Seq<u8>, format: PixelFormat) -> Seq<u8> {
    match format {
        PixelFormat::BGRA8 => swap_red_blue(s),
        _ => s,
    }
}

/// Exchanging red and blue twice gives the buffer back.
pub proof fn lemma_swap_red_blue_involution(s: Seq<u8>)
    ensures
        swap_red_blue(swap_red_blue(s)) == s,
{
    let t = swap_red_blue(s);
    assert(t.len() == s.len());
    assert forall|i: int| 0 <= i < s.len() implies #[trigger] swap_red_blue(t)[i] == s[i] by {
        if i < whole_pixel_bytes(s.len()) {
            if i % 4 == 0 {
                assert(i + 2 < whole_pixel_bytes(s.len()));
                assert((i + 2) % 4 == 2);
            } else if i % 4 == 2 {
                assert((i - 2) % 4 == 0);
            }
        }
    }
    assert(swap_red_blue(t) =~= s);
}

fn swap_first_channel(bitmap: &mut [u8])
    ensures
        final(bitmap)@ == swap_red_blue(old(bitmap)@),
{
    let len = bitmap.len();
    let end = len - len % 4;
    let mut i: usize = 0;
    while i < end
        invariant
            len == old(bitmap)@.len(),
            bitmap@.len() == len,
            end == whole_pixel_bytes(len as nat),
            i <= end,
            i % 4 == 0,
            forall|j: int| 0 <= j < i ==> bitmap@[j] == swap_red_blue(old(bitmap)@)[j],
            forall|j: int| i <= j < len ==> bitmap@[j] == old(bitmap)@[j],
        decreases end - i,
    {
        let tmp = bitmap[i];
        bitmap[i] = bitmap[i + 2];
        bitmap[i + 2] = tmp;
        i = i + 4;
    }
    assert(bitmap@ =~= swap_red_blue(old(bitmap)@));
}

/// Converts a BGRA buffer to RGBA in place by exchanging the blue and the red
/// channel of every whole pixel. Trailing bytes that do not make up a whole
/// pixel are left alone.
pub fn bgra8_to_rgba8(bgra8: &mut [u8])
    ensures
        final(bgra8)@ == swap_red_blue(old(bgra8)@),
{
    swap_first_channel(bgra8);
}

/// Brings `bitmap` to RGBA channel order in place and records the new format.
/// Only BGRA8 data is touched; the recorded format is RGBA8 afterwards in
/// every case.
pub fn ensure_rgba(bitmap: &mut [u8], src_format: &mut PixelFormat)
    ensures
        final(bitmap)@ == rgba_ordered(old(bitmap)@, *old(src_format)),
        *final(src_format) == PixelFormat::RGBA8,
{
    match src_format {
        PixelFormat::RGBA16 => {},
        PixelFormat::RGBA8 => {},
        PixelFormat::BGRA8 => bgra8_to_rgba8(bitmap),
    }
    *src_format = PixelFormat::RGBA8;
}

/// Exchanges blue and red in every whole four-byte pixel of `bytes`.
pub fn bgra_to_rgba(bytes: &mut [u8])
    ensures
        final(bytes)@ == swap_red_blue(old(bytes)@),
{
    let len = bytes.len();
    let pixels = len / 4;
    let mut p: usize = 0;
    while p < pixels
        invariant
            len == old(bytes)@.len(),
            bytes@.len() == len,
            pixels == len / 4,
            p <= pixels,
            forall|j: int| 0 <= j < 4 * p ==> bytes@[j] == swap_red_blue(old(bytes)@)[j],
            forall|j: int| 4 * p <= j < len ==> bytes@[j] == old(bytes)@[j],
        decreases pixels - p,
    {
        let base = 4 * p;
        let blue = bytes[base];
        bytes[base] = bytes[base + 2];
        bytes[base + 2] = blue;
        p = p + 1;
    }
    assert(bytes@ =~= swap_red_blue(old(bytes)@));
}

/// Brings an image buffer to RGBA channel order in place and records the new
/// format.
pub fn ensure_image_rgba(bytes: &mut [u8], image_format: &mut PixelFormat)
    ensures
        final(bytes)@ == rgba_ordered(old(bytes)@, *old(image_format)),
        *final(image_format) == PixelFormat::RGBA8,
{
    match image_format {
        PixelFormat::BGRA8 => bgra_to_rgba(bytes),
        _ => {},
    }
    *image_format = PixelFormat::RGBA8;
}

/// The first `row_bytes` bytes of each of `rows` rows that lie `stride`
/// bytes apart in `src`, one row after the other.
pub open spec fn packed_rows(src: Seq<u8>, stride: nat, row_bytes: nat, rows: nat) -> Seq<u8> {
    Seq::new(
        rows * row_bytes,
        |k: int| src[(k / row_bytes as int) * stride + k % row_bytes as int],
    )
}

/// Row `row` of `rows` rows of `stride` bytes starts within the last row and
/// ends within the rows.
proof fn lemma_row_within(row: int, rows: int, stride: int)
    requires
        0 <= row < rows,
        0 <= stride,
    ensures
        0 <= row * stride <= (rows - 1) * stride,
        row * stride + stride == (row + 1) * stride,
        row * stride + stride <= rows * stride,
{
    assert(0 <= row * stride <= (rows - 1) * stride) by (nonlinear_arith)
        requires
            0 <= row <= rows - 1,
            0 <= stride,
    ;
    assert(row * stride + stride == (row + 1) * stride) by (nonlinear_arith);
    assert((row + 1) * stride <= rows * stride) by (nonlinear_arith)
        requires
            0 <= row + 1 <= rows,
            0 <= stride,
    ;
}

/// Position `row * row_bytes + column` belongs to row `row`, column
/// `column`.
proof fn lemma_row_column(row: int, column: int, row_bytes: int)
    requires
        0 <= row,
        0 <= column < row_bytes,
    ensures
        (row * row_bytes + column) / row_bytes == row,
        (row * row_bytes + column) % row_bytes == column,
{
    vstd::arithmetic::div_mod::lemma_fundamental_div_mod_converse(
        row * row_bytes + column,
        row_bytes,
        row,
        column,
    );
}

/// Copies an image out of a buffer whose rows are padded: the first
/// `row_bytes` bytes of each of `rows` rows, which lie `stride` bytes apart
/// in `src`, go to the front of `dest` one after the other. What lies
/// behind them in `dest` stays.
pub fn copy_rows(dest: &mut [u8], src: &[u8], stride: usize, row_bytes: usize, rows: usize)
    requires
        rows * row_bytes <= old(dest)@.len(),
        rows > 0 ==> (rows - 1) * stride + row_bytes <= src@.len(),
    ensures
        final(dest)@.len() == old(dest)@.len(),
        final(dest)@.subrange(0, rows * row_bytes) == packed_rows(
            src@,
            stride as nat,
            row_bytes as nat,
            rows as nat,
        ),
        final(dest)@.subrange(rows * row_bytes, old(dest)@.len() as int) == old(dest)@.subrange(
            rows * row_bytes,
            old(dest)@.len() as int,
        ),
{
    let ghost wanted = packed_rows(src@, stride as nat, row_bytes as nat, rows as nat);
    let dest_len = dest.len();
    let src_len = src.len();
    let mut row: usize = 0;
    let mut src_start: usize = 0;
    let mut dest_start: usize = 0;
    while row < rows
        invariant
            row <= rows,
            dest@.len() == old(dest)@.len(),
            dest_len == dest@.len(),
            src_len == src@.len(),
            rows * row_bytes <= dest@.len(),
            rows > 0 ==> (rows - 1) * stride + row_bytes <= src@.len(),
            row < rows ==> src_start == row * stride,
            dest_start == row * row_bytes,
            wanted == packed_rows(src@, stride as nat, row_bytes as nat, rows as nat),
            forall|k: int| 0 <= k < dest_start ==> dest@[k] == wanted[k],
            forall|k: int| dest_start <= k < dest@.len() ==> dest@[k] == old(dest)@[k],
        decreases rows - row,
    {
        proof {
            lemma_row_within(row as int, rows as int, stride as int);
            lemma_row_within(row as int, rows as int, row_bytes as int);
            assert(dest_start + row_bytes <= rows * row_bytes);
            assert(src_start + row_bytes <= src@.len());
        }
        let mut column: usize = 0;
        while column < row_bytes
            invariant
                row < rows,
                column <= row_bytes,
                dest@.len() == old(dest)@.len(),
                dest_len == dest@.len(),
                src_len == src@.len(),
                rows * row_bytes <= dest@.len(),
                (rows - 1) * stride + row_bytes <= src@.len(),
                src_start == row * stride,
                src_start <= (rows - 1) * stride,
                dest_start == row * row_bytes,
                dest_start + row_bytes <= rows * row_bytes,
                wanted == packed_rows(src@, stride as nat, row_bytes as nat, rows as nat),
                forall|k: int| 0 <= k < dest_start + column ==> dest@[k] == wanted[k],
                forall|k: int|
                    dest_start + column <= k < dest@.len() ==> dest@[k] == old(dest)@[k],
            decreases row_bytes - column,
        {
            proof {
                lemma_row_column(row as int, column as int, row_bytes as int);
            }
            dest[dest_start + column] = src[src_start + column];
            column = column + 1;
        }
        row = row + 1;
        dest_start = dest_start + row_bytes;
        if row < rows {
            proof {
                lemma_row_within(row as int, rows as int, stride as int);
            }
            src_start = src_start + stride;
        }
    }
    assert(dest@.subrange(0, rows * row_bytes) =~= wanted);
    assert(dest@.subrange(rows * row_bytes, old(dest)@.len() as int) =~= old(dest)@.subrange(
        rows * row_bytes,
        old(dest)@.len() as int,
    ));
}

} // verus!
