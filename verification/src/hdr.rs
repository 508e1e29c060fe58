//! Radiance HDR images.

use image::ImageDecoder;
use vstd::prelude::*;

verus! {

/// The byte that ends a line.
pub const NEWLINE: u8 = 10;

/// The error type of the `image` crate, carried and never looked into.
#[verifier::external_type_specification]
#[verifier::external_body]
pub struct ExImageError(image::ImageError);

/// What `image::codecs::hdr::HdrDecoder::new` makes of the start of a file: the width and the
/// height of the image, or nothing where it rejects the file.
pub uninterp spec fn hdr_dimensions(hdr: Seq<u8>) -> Option<(u32, u32)>;

/// What `read_image` of `image::codecs::hdr::HdrDecoder` decodes from a file that the decoder
/// accepted: red, green and blue of each texel, row by row, each as the bit pattern of a
/// single-precision number; or nothing where the texels cannot be decoded.
pub uninterp spec fn hdr_channels(hdr: Seq<u8>) -> Option<Seq<u32>>;

/// Where the next line begins.
pub open spec fn line_end(hdr: Seq<u8>, at: int) -> int
    decreases hdr.len() - at,
{
    if at >= hdr.len() {
        at
    } else if hdr[at] == NEWLINE {
        at + 1
    } else {
        line_end(hdr, at + 1)
    }
}

/// Where the header ends: behind the first empty line from `at` on.
pub open spec fn header_end(hdr: Seq<u8>, at: int) -> int
    decreases hdr.len() - at,
{
    if at + 1 >= hdr.len() {
        hdr.len() as int
    } else if hdr[at] == NEWLINE && hdr[at + 1] == NEWLINE {
        at + 2
    } else {
        header_end(hdr, at + 1)
    }
}

/// Where the texels begin: behind the line of the dimensions, which follows the header.
pub open spec fn first_texel(hdr: Seq<u8>) -> int {
    line_end(hdr, header_end(hdr, 0))
}

/// Whether the four bytes at `at` are a run-length marker of the old encoding.
pub open spec fn is_run_marker(hdr: Seq<u8>, at: int) -> bool {
    hdr[at] == 1 && hdr[at + 1] == 1 && hdr[at + 2] == 1
}

/// How many markers in a row scale a run length beyond `usize`: each scales it by a byte.
pub open spec fn spec_overflowing_markers() -> int {
    usize::BITS as int / 8
}

/// By how much a marker is scaled that follows `chain` others.
pub open spec fn scale_of(chain: int) -> int
    decreases chain,
{
    if chain <= 0 {
        1
    } else {
        256 * scale_of(chain - 1)
    }
}

/// What becomes of a row.
pub enum RowEnd {
    /// It is complete, and the next one begins here.
    Next(int),
    /// It does not decode.
    Failed,
    /// Its run-length markers scale a run length beyond `usize`.
    Overflow,
}

/// Where one component of a row in the new encoding ends, of which `pos` values have been read up
/// to `at`. A packet is a count of up to 128 and as many values, or a larger count and the one
/// value of a run.
pub open spec fn component_end(hdr: Seq<u8>, at: int, pos: int, width: int) -> Option<int>
    decreases hdr.len() - at,
{
    if pos >= width {
        Some(at)
    } else if at >= hdr.len() {
        None
    } else {
        let count = hdr[at] as int;
        let (length, bytes) = if count <= 128 {
            (count, count)
        } else {
            (count - 128, 1)
        };
        if pos + length > width || at + 1 + bytes > hdr.len() {
            None
        } else {
            component_end(hdr, at + 1 + bytes, pos + length, width)
        }
    }
}

/// Where so many components of a row in the new encoding end.
pub open spec fn components_end(hdr: Seq<u8>, at: int, components: int, width: int) -> Option<int>
    decreases components,
{
    if components <= 0 {
        Some(at)
    } else {
        match component_end(hdr, at, 0, width) {
            Some(next) => components_end(hdr, next, components - 1, width),
            None => None,
        }
    }
}

/// What becomes of a row in the old encoding, of which `x` texels have been read up to `at`, the
/// last of them by `chain` markers in a row.
pub open spec fn old_row_end(hdr: Seq<u8>, at: int, x: int, chain: int, width: int) -> RowEnd
    decreases hdr.len() - at,
{
    if x >= width {
        RowEnd::Next(at)
    } else if at + 4 > hdr.len() {
        RowEnd::Failed
    } else if !is_run_marker(hdr, at) {
        old_row_end(hdr, at + 4, x + 1, 0, width)
    } else if chain + 1 >= spec_overflowing_markers() {
        RowEnd::Overflow
    } else {
        let run = hdr[at + 3] * scale_of(chain);
        if x + run > width {
            RowEnd::Failed
        } else {
            old_row_end(hdr, at + 4, x + run, chain + 1, width)
        }
    }
}

/// What becomes of the row that begins at `at`. Its first four bytes tell the encoding; in the old
/// one they are its first texel, which cannot be a marker.
pub open spec fn row_end(hdr: Seq<u8>, at: int, width: int) -> RowEnd {
    if at + 4 > hdr.len() {
        RowEnd::Failed
    } else if hdr[at] == 2 && hdr[at + 1] == 2 && hdr[at + 2] < 128 {
        match components_end(hdr, at + 4, 4, width) {
            Some(next) => RowEnd::Next(next),
            None => RowEnd::Failed,
        }
    } else if is_run_marker(hdr, at) {
        RowEnd::Failed
    } else {
        old_row_end(hdr, at + 4, 1, 0, width)
    }
}

/// Whether the decoder comes to a row whose markers scale a run length beyond `usize`, where
/// `rows` rows of `width` texels begin at `at`. It stops at a row that does not decode.
pub open spec fn rows_overflow(hdr: Seq<u8>, at: int, rows: int, width: int) -> bool
    decreases rows,
{
    if rows <= 0 || width <= 0 {
        false
    } else {
        match row_end(hdr, at, width) {
            RowEnd::Next(next) => rows_overflow(hdr, next, rows - 1, width),
            RowEnd::Failed => false,
            RowEnd::Overflow => true,
        }
    }
}

/// Whether the decoder loses count of a run in the file of an image of this size.
pub open spec fn has_overflowing_run(hdr: Seq<u8>, width: u32, height: u32) -> bool {
    rows_overflow(hdr, first_texel(hdr), height as int, width as int)
}

/// Whether the texels of an image of this size fit in memory as single-precision numbers.
pub open spec fn fits_in_memory(width: u32, height: u32) -> bool {
    12 * (width * height) <= isize::MAX
}

/// Calls `image::codecs::hdr::HdrDecoder::new` on the whole file and `dimensions` on the decoder.
/// The claim is that the outcome is a function of the file's bytes.
#[verifier::external_body]
pub(crate) fn read_dimensions(hdr: &[u8]) -> (dimensions: Result<(u32, u32), image::ImageError>)
    ensures
        match dimensions {
            Ok(d) => hdr_dimensions(hdr@) == Some(d),
            Err(_) => hdr_dimensions(hdr@) is None,
        },
{
    let decoder = image::codecs::hdr::HdrDecoder::new(hdr)?;
    Ok(decoder.dimensions())
}

/// Calls `image::codecs::hdr::HdrDecoder::new` on the whole file and `read_image` on the decoder,
/// into a buffer that `bytemuck::cast_slice_mut` lends as bytes. The claim is that the outcome is
/// a function of the file's bytes, and that the buffer keeps its length. `read_image` insists on
/// a buffer of exactly three numbers per texel, and it counts runs of the old encoding with a
/// factor that must not overflow.
#[verifier::external_body]
pub(crate) fn read_channels(hdr: &[u8], len: usize) -> (channels: Result<
    Vec<u32>,
    image::ImageError,
>)
    requires
        hdr_dimensions(hdr@) matches Some(d) && {
            &&& len == 3 * (d.0 * d.1)
            &&& fits_in_memory(d.0, d.1)
            &&& !has_overflowing_run(hdr@, d.0, d.1)
        },
    ensures
        match channels {
            Ok(c) => hdr_channels(hdr@) == Some(c@) && c@.len() == len,
            Err(_) => hdr_channels(hdr@) is None,
        },
{
    let decoder = image::codecs::hdr::HdrDecoder::new(hdr)?;
    let mut channels = vec![0u32; len];
    decoder.read_image(bytemuck::cast_slice_mut(&mut channels))?;
    Ok(channels)
}

/// What became of a row.
enum Row {
    Next(usize),
    Failed,
    Overflow,
}

impl View for Row {
    type V = RowEnd;

    closed spec fn view(&self) -> RowEnd {
        match self {
            Row::Next(at) => RowEnd::Next(*at as int),
            Row::Failed => RowEnd::Failed,
            Row::Overflow => RowEnd::Overflow,
        }
    }
}

/// Finds where the texels begin.
fn find_first_texel(hdr: &[u8]) -> (start: usize)
    ensures
        start == first_texel(hdr@),
        start <= hdr@.len(),
{
    let n: usize = hdr.len();
    let mut end: usize = 0;
    while n - end >= 2 && !(hdr[end] == NEWLINE && hdr[end + 1] == NEWLINE)
        invariant
            end <= n,
            n == hdr@.len(),
            header_end(hdr@, end as int) == header_end(hdr@, 0),
        decreases n - end,
    {
        end += 1;
    }
    end = if n - end >= 2 {
        end + 2
    } else {
        n
    };
    assert(end == header_end(hdr@, 0));
    while end < n && hdr[end] != NEWLINE
        invariant
            end <= n,
            n == hdr@.len(),
            line_end(hdr@, end as int) == first_texel(hdr@),
        decreases n - end,
    {
        end += 1;
    }
    if end < n {
        end + 1
    } else {
        n
    }
}

/// Skips one component of a row in the new encoding.
fn skip_component(hdr: &[u8], start: usize, width: u32) -> (end: Option<usize>)
    requires
        start <= hdr@.len(),
    ensures
        match end {
            Some(end) => component_end(hdr@, start as int, 0, width as int) == Some(end as int)
                && end <= hdr@.len(),
            None => component_end(hdr@, start as int, 0, width as int) is None,
        },
{
    let n: usize = hdr.len();
    let mut at: usize = start;
    let mut pos: u64 = 0;
    while pos < width as u64
        invariant
            at <= n,
            n == hdr@.len(),
            pos <= width,
            component_end(hdr@, at as int, pos as int, width as int) == component_end(
                hdr@,
                start as int,
                0,
                width as int,
            ),
        decreases n - at,
    {
        if at >= n {
            return None;
        }
        let count: u8 = hdr[at];
        let length: u64 = if count <= 128 {
            count as u64
        } else {
            (count - 128) as u64
        };
        let bytes: usize = if count <= 128 {
            count as usize
        } else {
            1
        };
        if pos + length > width as u64 || n - at - 1 < bytes {
            return None;
        }
        at = at + 1 + bytes;
        pos += length;
    }
    Some(at)
}

/// Skips the four components of a row in the new encoding.
fn skip_components(hdr: &[u8], start: usize, width: u32) -> (end: Option<usize>)
    requires
        start <= hdr@.len(),
    ensures
        match end {
            Some(end) => components_end(hdr@, start as int, 4, width as int) == Some(end as int)
                && end <= hdr@.len(),
            None => components_end(hdr@, start as int, 4, width as int) is None,
        },
{
    let mut at: usize = start;
    let mut left: u32 = 4;
    while left > 0
        invariant
            left <= 4,
            at <= hdr@.len(),
            components_end(hdr@, at as int, left as int, width as int) == components_end(
                hdr@,
                start as int,
                4,
                width as int,
            ),
        decreases left,
    {
        match skip_component(hdr, at, width) {
            Some(next) => at = next,
            None => return None,
        }
        left -= 1;
    }
    Some(at)
}

/// Fewer markers than overflow keep the scale in 64 bits, with room for a byte.
proof fn lemma_scale_fits(chain: int)
    requires
        0 <= chain < 8,
    ensures
        1 <= scale_of(chain) <= 0x100_0000_0000_0000,
{
    reveal_with_fuel(scale_of, 8);
}

/// Skips the rest of a row in the old encoding, behind its first texel.
fn skip_old_row(hdr: &[u8], start: usize, width: u32) -> (end: Row)
    requires
        start <= hdr@.len(),
        width > 0,
    ensures
        end@ == old_row_end(hdr@, start as int, 1, 0, width as int),
        end matches Row::Next(at) ==> at <= hdr@.len(),
{
    let n: usize = hdr.len();
    let markers: u32 = usize::BITS / 8;
    let mut at: usize = start;
    let mut x: u64 = 1;
    let mut chain: u32 = 0;
    let mut scale: u64 = 1;
    while x < width as u64
        invariant
            at <= n,
            n == hdr@.len(),
            markers == spec_overflowing_markers(),
            0 < markers <= 8,
            chain < markers,
            scale == scale_of(chain as int),
            x <= width,
            old_row_end(hdr@, at as int, x as int, chain as int, width as int) == old_row_end(
                hdr@,
                start as int,
                1,
                0,
                width as int,
            ),
        decreases n - at,
    {
        if n - at < 4 {
            return Row::Failed;
        }
        if hdr[at] == 1 && hdr[at + 1] == 1 && hdr[at + 2] == 1 {
            if chain + 1 >= markers {
                return Row::Overflow;
            }
            let digit: u64 = hdr[at + 3] as u64;
            proof {
                lemma_scale_fits(chain as int);
                lemma_scale_fits(chain + 1);
            }
            assert(0 <= digit * scale <= 255 * 0x100_0000_0000_0000) by (nonlinear_arith)
                requires
                    0 <= digit <= 255,
                    0 <= scale <= 0x100_0000_0000_0000,
            ;
            let run: u64 = digit * scale;
            if x + run > width as u64 {
                return Row::Failed;
            }
            x += run;
            chain += 1;
            scale *= 256;
        } else {
            x += 1;
            chain = 0;
            scale = 1;
        }
        at += 4;
    }
    Row::Next(at)
}

/// Skips a row.
fn skip_row(hdr: &[u8], start: usize, width: u32) -> (end: Row)
    requires
        start <= hdr@.len(),
        width > 0,
    ensures
        end@ == row_end(hdr@, start as int, width as int),
        end matches Row::Next(at) ==> at <= hdr@.len(),
{
    if hdr.len() - start < 4 {
        return Row::Failed;
    }
    if hdr[start] == 2 && hdr[start + 1] == 2 && hdr[start + 2] < 128 {
        match skip_components(hdr, start + 4, width) {
            Some(next) => Row::Next(next),
            None => Row::Failed,
        }
    } else if hdr[start] == 1 && hdr[start + 1] == 1 && hdr[start + 2] == 1 {
        Row::Failed
    } else {
        skip_old_row(hdr, start + 4, width)
    }
}

/// Tests whether the decoder would lose count of a run in an image of this size.
pub fn contains_overflowing_run(hdr: &[u8], width: u32, height: u32) -> (found: bool)
    ensures
        found == has_overflowing_run(hdr@, width, height),
{
    if width == 0 {
        return false;
    }
    let mut at = find_first_texel(hdr);
    let mut rows: u32 = height;
    while rows > 0
        invariant
            width > 0,
            at <= hdr@.len(),
            rows_overflow(hdr@, at as int, rows as int, width as int) == has_overflowing_run(
                hdr@,
                width,
                height,
            ),
        decreases rows,
    {
        match skip_row(hdr, at, width) {
            Row::Next(next) => at = next,
            Row::Failed => return false,
            Row::Overflow => return true,
        }
        rows -= 1;
    }
    false
}

} // verus!
