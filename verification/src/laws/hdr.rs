//! Radiance files: which of them hold a run that the decoder loses count of.

use crate::hdr::{
    component_end, components_end, contains_overflowing_run, first_texel, header_end, line_end,
    old_row_end, row_end, rows_overflow, scale_of, RowEnd,
};
use vstd::prelude::*;

verus! {

/// How many markers in a row the decoder cannot count: as many as a `usize` has bytes.
pub open spec fn too_many() -> int {
    usize::BITS as int / 8
}

/// Whether there is a marker of a run at a place.
pub open spec fn is_marker(hdr: Seq<u8>, at: int) -> bool {
    hdr[at] == 1 && hdr[at + 1] == 1 && hdr[at + 2] == 1
}

/// Whether so many markers follow on one another from a place on.
pub open spec fn are_markers(hdr: Seq<u8>, at: int, count: int) -> bool {
    &&& 0 <= at
    &&& at + 4 * count <= hdr.len()
    &&& forall|k: int| 0 <= k < count ==> #[trigger] is_marker(hdr, at + 4 * k)
}

/// Whether the texels of a file begin at a place: its first empty line ends the header, the line
/// behind that is the one of the dimensions, and it ends right before the place.
pub open spec fn texels_begin_at(hdr: Seq<u8>, blank: int, at: int) -> bool {
    &&& 0 <= blank
    &&& blank + 2 < at <= hdr.len()
    &&& hdr[blank] == 10
    &&& hdr[blank + 1] == 10
    &&& forall|i: int| 0 <= i < blank ==> !(#[trigger] hdr[i] == 10 && hdr[i + 1] == 10)
    &&& hdr[at - 1] == 10
    &&& forall|i: int| blank + 2 <= i < at - 1 ==> #[trigger] hdr[i] != 10
}

proof fn lemma_header_end(hdr: Seq<u8>, blank: int, at: int, i: int)
    requires
        texels_begin_at(hdr, blank, at),
        0 <= i <= blank,
    ensures
        header_end(hdr, i) == blank + 2,
    decreases blank - i,
{
    if i < blank {
        lemma_header_end(hdr, blank, at, i + 1);
        assert(!(hdr[i] == 10 && hdr[i + 1] == 10));
    }
}

proof fn lemma_line_end(hdr: Seq<u8>, blank: int, at: int, i: int)
    requires
        texels_begin_at(hdr, blank, at),
        blank + 2 <= i < at,
    ensures
        line_end(hdr, i) == at,
    decreases at - i,
{
    if i < at - 1 {
        assert(hdr[i] != 10);
        lemma_line_end(hdr, blank, at, i + 1);
    }
}

proof fn lemma_first_texel(hdr: Seq<u8>, blank: int, at: int)
    requires
        texels_begin_at(hdr, blank, at),
    ensures
        first_texel(hdr) == at,
{
    lemma_header_end(hdr, blank, at, 0);
    lemma_line_end(hdr, blank, at, blank + 2);
}

/// An overflow is found behind that many markers.
proof fn lemma_overflow_has_markers(hdr: Seq<u8>, at: int, x: int, chain: int, width: int)
    requires
        0 <= at,
        0 <= chain < too_many(),
        are_markers(hdr, at - 4 * chain, chain),
        old_row_end(hdr, at, x, chain, width) is Overflow,
    ensures
        exists|p: int| #[trigger] are_markers(hdr, p, too_many()),
    decreases hdr.len() - at,
{
    if !is_marker(hdr, at) {
        lemma_overflow_has_markers(hdr, at + 4, x + 1, 0, width);
    } else {
        let p = at - 4 * chain;
        assert forall|k: int| 0 <= k < chain + 1 implies #[trigger] is_marker(hdr, p + 4 * k) by {
            if k == chain {
                assert(p + 4 * k == at);
            }
        }
        assert(are_markers(hdr, p, chain + 1));
        if chain + 1 < too_many() {
            let run = hdr[at + 3] * scale_of(chain);
            lemma_overflow_has_markers(hdr, at + 4, x + run, chain + 1, width);
        }
    }
}

proof fn lemma_component_end_is_behind(hdr: Seq<u8>, at: int, pos: int, width: int)
    ensures
        component_end(hdr, at, pos, width) matches Some(end) ==> end >= at,
    decreases hdr.len() - at,
{
    if pos < width && at < hdr.len() {
        let count = hdr[at] as int;
        if count <= 128 {
            if at + 1 + count <= hdr.len() {
                lemma_component_end_is_behind(hdr, at + 1 + count, pos + count, width);
            }
        } else if at + 2 <= hdr.len() {
            lemma_component_end_is_behind(hdr, at + 2, pos + count - 128, width);
        }
    }
}

proof fn lemma_old_row_end_is_behind(hdr: Seq<u8>, at: int, x: int, chain: int, width: int)
    ensures
        old_row_end(hdr, at, x, chain, width) matches RowEnd::Next(end) ==> end >= at,
    decreases hdr.len() - at,
{
    if x < width && at + 4 <= hdr.len() {
        if !is_marker(hdr, at) {
            lemma_old_row_end_is_behind(hdr, at + 4, x + 1, 0, width);
        } else {
            let run = hdr[at + 3] * scale_of(chain);
            lemma_old_row_end_is_behind(hdr, at + 4, x + run, chain + 1, width);
        }
    }
}

proof fn lemma_row_end_is_behind(hdr: Seq<u8>, at: int, width: int)
    ensures
        row_end(hdr, at, width) matches RowEnd::Next(end) ==> end >= at,
{
    reveal_with_fuel(components_end, 5);
    lemma_old_row_end_is_behind(hdr, at + 4, 1, 0, width);
    lemma_component_end_is_behind(hdr, at + 4, 0, width);
    if let Some(a) = component_end(hdr, at + 4, 0, width) {
        lemma_component_end_is_behind(hdr, a, 0, width);
        if let Some(b) = component_end(hdr, a, 0, width) {
            lemma_component_end_is_behind(hdr, b, 0, width);
            if let Some(c) = component_end(hdr, b, 0, width) {
                lemma_component_end_is_behind(hdr, c, 0, width);
            }
        }
    }
}

proof fn lemma_rows_have_markers(hdr: Seq<u8>, at: int, rows: int, width: int)
    requires
        0 <= at,
        rows_overflow(hdr, at, rows, width),
    ensures
        exists|p: int| #[trigger] are_markers(hdr, p, too_many()),
    decreases rows,
{
    match row_end(hdr, at, width) {
        RowEnd::Next(next) => {
            lemma_row_end_is_behind(hdr, at, width);
            lemma_rows_have_markers(hdr, next, rows - 1, width);
        },
        RowEnd::Failed => {},
        RowEnd::Overflow => {
            lemma_overflow_has_markers(hdr, at + 4, 1, 0, width);
        },
    }
}

proof fn lemma_line_end_is_behind(hdr: Seq<u8>, at: int)
    ensures
        line_end(hdr, at) >= at,
    decreases hdr.len() - at,
{
    if at < hdr.len() && hdr[at] != 10 {
        lemma_line_end_is_behind(hdr, at + 1);
    }
}

proof fn lemma_header_end_is_behind(hdr: Seq<u8>, at: int)
    requires
        0 <= at <= hdr.len(),
    ensures
        header_end(hdr, at) >= at,
    decreases hdr.len() - at,
{
    if at + 1 < hdr.len() && !(hdr[at] == 10 && hdr[at + 1] == 10) {
        lemma_header_end_is_behind(hdr, at + 1);
    }
}

/// A file is not refused without a reason: where a run is found that cannot be counted, there are
/// too many markers in a row somewhere in the file. So a file without them is let through.
pub proof fn law_refused_file_has_the_markers(hdr: &[u8], width: u32, height: u32, found: bool)
    requires
        call_ensures(contains_overflowing_run, (hdr, width, height), found),
    ensures
        found ==> exists|p: int| #[trigger] are_markers(hdr@, p, too_many()),
        found ==> width > 0 && height > 0,
{
    if found {
        lemma_header_end_is_behind(hdr@, 0);
        lemma_line_end_is_behind(hdr@, header_end(hdr@, 0));
        lemma_rows_have_markers(hdr@, first_texel(hdr@), height as int, width as int);
    }
}

proof fn lemma_markers_overflow(hdr: Seq<u8>, first: int, chain: int, width: int)
    requires
        width > 1,
        0 <= chain < too_many(),
        are_markers(hdr, first, too_many()),
        forall|k: int| 0 <= k < too_many() ==> hdr[#[trigger] (first + 4 * k) + 3] == 0,
    ensures
        old_row_end(hdr, first + 4 * chain, 1, chain, width) is Overflow,
    decreases too_many() - chain,
{
    let at = first + 4 * chain;
    assert(is_marker(hdr, first + 4 * chain));
    if chain + 1 < too_many() {
        assert(hdr[(first + 4 * chain) + 3] == 0);
        assert(0 * scale_of(chain) == 0);
        lemma_markers_overflow(hdr, first, chain + 1, width);
    }
}

/// A file that the decoder would lose count in is found: a first row that is a texel and then too
/// many markers, whatever comes behind them. (Empty runs do not fill the row.)
pub proof fn law_too_many_markers_are_found(
    hdr: &[u8],
    blank: int,
    at: int,
    width: u32,
    height: u32,
    found: bool,
)
    requires
        texels_begin_at(hdr@, blank, at),
        width > 1,
        height > 0,
        hdr@[at] != 1,
        hdr@[at] != 2,
        are_markers(hdr@, at + 4, too_many()),
        forall|k: int| 0 <= k < too_many() ==> hdr@[#[trigger] (at + 4 + 4 * k) + 3] == 0,
        call_ensures(contains_overflowing_run, (hdr, width, height), found),
    ensures
        found,
{
    lemma_first_texel(hdr@, blank, at);
    lemma_markers_overflow(hdr@, at + 4, 0, width as int);
}

/// Whether a row of single texels begins at a place.
pub open spec fn is_flat_row(hdr: Seq<u8>, at: int, width: int, bytes: int) -> bool {
    &&& width > 0
    &&& bytes == 4 * width
    &&& at + bytes <= hdr.len()
    &&& hdr[at] != 2
    &&& forall|k: int| 0 <= k < width ==> !#[trigger] is_marker(hdr, at + 4 * k)
}

/// Whether a row begins at a place that is one texel and a run of it, which one marker counts.
pub open spec fn is_run_row(hdr: Seq<u8>, at: int, width: int, bytes: int) -> bool {
    &&& width > 1
    &&& bytes == 8
    &&& at + bytes <= hdr.len()
    &&& hdr[at] != 2
    &&& !is_marker(hdr, at)
    &&& is_marker(hdr, at + 4)
    &&& hdr[at + 7] == width - 1
}

/// Whether a row begins at a place that is one texel and a run of it, which two markers count, the
/// second in steps of 256.
pub open spec fn is_long_run_row(hdr: Seq<u8>, at: int, width: int, bytes: int) -> bool {
    &&& hdr[at + 11] > 0
    &&& bytes == 12
    &&& at + bytes <= hdr.len()
    &&& hdr[at] != 2
    &&& !is_marker(hdr, at)
    &&& is_marker(hdr, at + 4)
    &&& is_marker(hdr, at + 8)
    &&& 1 + hdr[at + 7] + 256 * hdr[at + 11] == width
}

/// Whether one component of a row stands at a place, in one packet: a run, or all values.
pub open spec fn is_packet(hdr: Seq<u8>, at: int, width: int, bytes: int) -> bool {
    &&& 0 < width
    &&& 0 <= at
    &&& at + bytes <= hdr.len()
    &&& ({
        ||| bytes == 2 && width < 128 && hdr[at] == 128 + width
        ||| bytes == 1 + width && width <= 128 && hdr[at] == width
    })
}

/// Whether one component of a row stands at a place, in two packets: a run and all other values, or
/// the other way round.
pub open spec fn is_packet_pair(hdr: Seq<u8>, at: int, width: int, split: int, bytes: int) -> bool {
    &&& 0 < split < width
    &&& 0 <= at
    &&& at + bytes <= hdr.len()
    &&& ({
        ||| bytes == 3 + (width - split) && split < 128 && width - split <= 128 && hdr[at] == 128
            + split && hdr[at + 2] == width - split
        ||| bytes == 3 + split && split <= 128 && width - split < 128 && hdr[at] == split && hdr[at
            + 1 + split] == 128 + (width - split)
    })
}

/// Whether one component of a row stands at a place.
pub open spec fn is_component(hdr: Seq<u8>, at: int, width: int, bytes: int) -> bool {
    ||| is_packet(hdr, at, width, bytes)
    ||| exists|split: int| is_packet_pair(hdr, at, width, split, bytes)
}

/// Whether a row begins at a place whose four components follow on one another.
pub open spec fn is_packed_row(
    hdr: Seq<u8>,
    at: int,
    width: int,
    sizes: (int, int, int, int),
    bytes: int,
) -> bool {
    &&& at + 4 <= hdr.len()
    &&& hdr[at] == 2
    &&& hdr[at + 1] == 2
    &&& hdr[at + 2] < 128
    &&& is_component(hdr, at + 4, width, sizes.0)
    &&& is_component(hdr, at + 4 + sizes.0, width, sizes.1)
    &&& is_component(hdr, at + 4 + sizes.0 + sizes.1, width, sizes.2)
    &&& is_component(hdr, at + 4 + sizes.0 + sizes.1 + sizes.2, width, sizes.3)
    &&& bytes == 4 + sizes.0 + sizes.1 + sizes.2 + sizes.3
}

proof fn lemma_scales()
    ensures
        scale_of(0) == 1,
        scale_of(1) == 256,
        too_many() >= 4,
{
    reveal_with_fuel(scale_of, 3);
}

proof fn lemma_flat_row(hdr: Seq<u8>, at: int, width: int, x: int)
    requires
        0 <= at,
        is_flat_row(hdr, at, width, 4 * width),
        1 <= x <= width,
    ensures
        old_row_end(hdr, at + 4 * x, x, 0, width) == RowEnd::Next(at + 4 * width),
    decreases width - x,
{
    if x < width {
        assert(!is_marker(hdr, at + 4 * x));
        lemma_flat_row(hdr, at, width, x + 1);
    }
}

proof fn lemma_component(hdr: Seq<u8>, at: int, width: int, bytes: int)
    requires
        is_component(hdr, at, width, bytes),
    ensures
        component_end(hdr, at, 0, width) == Some(at + bytes),
{
    reveal_with_fuel(component_end, 4);
    if !is_packet(hdr, at, width, bytes) {
        let split = choose|split: int| is_packet_pair(hdr, at, width, split, bytes);
        assert(is_packet_pair(hdr, at, width, split, bytes));
    }
}

proof fn lemma_packed_row(
    hdr: Seq<u8>,
    at: int,
    width: int,
    sizes: (int, int, int, int),
    bytes: int,
)
    requires
        is_packed_row(hdr, at, width, sizes, bytes),
    ensures
        row_end(hdr, at, width) == RowEnd::Next(at + bytes),
{
    reveal_with_fuel(components_end, 5);
    lemma_component(hdr, at + 4, width, sizes.0);
    lemma_component(hdr, at + 4 + sizes.0, width, sizes.1);
    lemma_component(hdr, at + 4 + sizes.0 + sizes.1, width, sizes.2);
    lemma_component(hdr, at + 4 + sizes.0 + sizes.1 + sizes.2, width, sizes.3);
}

/// Whether one file continues, from a place on, as another one does some bytes further.
spec fn continues_as(a: Seq<u8>, b: Seq<u8>, further: int, at: int) -> bool {
    &&& 0 <= at
    &&& b.len() == a.len() + further
    &&& forall|i: int| at <= i < a.len() ==> #[trigger] a[i] == b[i + further]
}

proof fn lemma_component_moves(a: Seq<u8>, b: Seq<u8>, d: int, at: int, pos: int, width: int)
    requires
        continues_as(a, b, d, at),
    ensures
        component_end(b, at + d, pos, width) == match component_end(a, at, pos, width) {
            Some(end) => Some(end + d),
            None => None,
        },
    decreases a.len() - at,
{
    if pos < width && at < a.len() {
        assert(a[at] == b[at + d]);
        let count = a[at] as int;
        if count <= 128 {
            if at + 1 + count <= a.len() {
                lemma_component_moves(a, b, d, at + 1 + count, pos + count, width);
            }
        } else if at + 2 <= a.len() {
            lemma_component_moves(a, b, d, at + 2, pos + count - 128, width);
        }
    }
}

proof fn lemma_components_move(a: Seq<u8>, b: Seq<u8>, d: int, at: int, count: int, width: int)
    requires
        continues_as(a, b, d, at),
    ensures
        components_end(b, at + d, count, width) == match components_end(a, at, count, width) {
            Some(end) => Some(end + d),
            None => None,
        },
    decreases count,
{
    if count > 0 {
        lemma_component_moves(a, b, d, at, 0, width);
        lemma_component_end_is_behind(a, at, 0, width);
        if let Some(next) = component_end(a, at, 0, width) {
            lemma_components_move(a, b, d, next, count - 1, width);
        }
    }
}

spec fn moved(end: RowEnd, further: int) -> RowEnd {
    match end {
        RowEnd::Next(at) => RowEnd::Next(at + further),
        _ => end,
    }
}

proof fn lemma_old_row_moves(
    a: Seq<u8>,
    b: Seq<u8>,
    d: int,
    at: int,
    x: int,
    chain: int,
    width: int,
)
    requires
        continues_as(a, b, d, at),
    ensures
        old_row_end(b, at + d, x, chain, width) == moved(old_row_end(a, at, x, chain, width), d),
    decreases a.len() - at,
{
    if x < width && at + 4 <= a.len() {
        assert(a[at] == b[at + d]);
        assert(a[at + 1] == b[at + 1 + d]);
        assert(a[at + 2] == b[at + 2 + d]);
        assert(a[at + 3] == b[at + 3 + d]);
        assert(is_marker(a, at) == is_marker(b, at + d));
        if !is_marker(a, at) {
            lemma_old_row_moves(a, b, d, at + 4, x + 1, 0, width);
        } else {
            let run = a[at + 3] * scale_of(chain);
            lemma_old_row_moves(a, b, d, at + 4, x + run, chain + 1, width);
        }
    }
}

proof fn lemma_rows_move(a: Seq<u8>, b: Seq<u8>, d: int, at: int, rows: int, width: int)
    requires
        continues_as(a, b, d, at),
    ensures
        rows_overflow(b, at + d, rows, width) == rows_overflow(a, at, rows, width),
    decreases rows,
{
    if rows > 0 && width > 0 {
        if at + 4 <= a.len() {
            assert(a[at] == b[at + d]);
            assert(a[at + 1] == b[at + 1 + d]);
            assert(a[at + 2] == b[at + 2 + d]);
        }
        lemma_components_move(a, b, d, at + 4, 4, width);
        lemma_old_row_moves(a, b, d, at + 4, 1, 0, width);
        lemma_row_end_is_behind(a, at, width);
        if let RowEnd::Next(next) = row_end(a, at, width) {
            lemma_rows_move(a, b, d, next, rows - 1, width);
        }
    }
}

/// A row that decodes does not matter for those behind it: a file has a run that cannot be counted
/// exactly if the file without its first row, which is one row less high, has one. This holds of
/// rows of single texels, of rows of one run, and of rows whose components are packed.
pub proof fn law_decoded_row_does_not_matter(
    hdr: &[u8],
    shorter: &[u8],
    blank: int,
    at: int,
    width: u32,
    height: u32,
    sizes: (int, int, int, int),
    bytes: int,
    found: bool,
    found_in_shorter: bool,
)
    requires
        texels_begin_at(hdr@, blank, at),
        ({
            let w = width as int;
            ||| is_flat_row(hdr@, at, w, bytes)
            ||| is_run_row(hdr@, at, w, bytes)
            ||| is_long_run_row(hdr@, at, w, bytes)
            ||| is_packed_row(hdr@, at, w, sizes, bytes)
        }),
        0 <= bytes <= hdr@.len() - at,
        shorter@ == hdr@.take(at) + hdr@.skip(at + bytes),
        height > 0,
        call_ensures(contains_overflowing_run, (hdr, width, height), found),
        call_ensures(
            contains_overflowing_run,
            (shorter, width, (height - 1) as u32),
            found_in_shorter,
        ),
    ensures
        found == found_in_shorter,
{
    let w = width as int;
    let h = hdr@;
    let s = shorter@;
    lemma_first_texel(h, blank, at);
    assert forall|i: int| 0 <= i < at implies #[trigger] s[i] == h[i] by {}
    assert forall|i: int| 0 <= i < blank implies !(#[trigger] s[i] == 10 && s[i + 1] == 10) by {
        assert(!(h[i] == 10 && h[i + 1] == 10));
        assert(s[i + 1] == h[i + 1]);
    }
    assert(texels_begin_at(s, blank, at));
    lemma_first_texel(s, blank, at);
    assert(row_end(h, at, w) == RowEnd::Next(at + bytes)) by {
        if is_flat_row(h, at, w, bytes) {
            assert(!is_marker(h, at + 4 * 0));
            lemma_flat_row(h, at, w, 1);
        } else if is_run_row(h, at, w, bytes) {
            lemma_scales();
            assert(h[at + 7] * 1 == h[at + 7]);
            reveal_with_fuel(old_row_end, 3);
            assert(old_row_end(h, at + 4, 1, 0, w) == RowEnd::Next(at + 8));
        } else if is_long_run_row(h, at, w, bytes) {
            lemma_scales();
            assert(h[at + 7] * 1 == h[at + 7]);
            assert(h[at + 11] * 256 == 256 * h[at + 11]);
            reveal_with_fuel(old_row_end, 4);
            assert(old_row_end(h, at + 4, 1, 0, w) == RowEnd::Next(at + 12));
        } else {
            lemma_packed_row(h, at, w, sizes, bytes);
        }
    }
    assert(continues_as(s, h, bytes, at)) by {
        assert forall|i: int| at <= i < s.len() implies #[trigger] s[i] == h[i + bytes] by {
            assert(s[i] == h.skip(at + bytes)[i - at]);
        }
    }
    if w > 0 {
        lemma_rows_move(s, h, bytes, at, height - 1, w);
    }
}

/// The decoder stops at a row that does not decode, and then no run is found: one that is cut
/// short, one that begins with a marker, or one whose run is longer than the row.
pub proof fn law_broken_row_ends_the_search(
    hdr: &[u8],
    blank: int,
    at: int,
    width: u32,
    height: u32,
    found: bool,
)
    requires
        texels_begin_at(hdr@, blank, at),
        ({
            ||| hdr@.len() < at + 4
            ||| is_marker(hdr@, at)
            ||| hdr@.len() < at + 8 && width > 1 && hdr@[at] != 2
            ||| width > 1 && hdr@[at] != 2 && is_marker(hdr@, at + 4) && hdr@[at + 7] >= width
        }),
        call_ensures(contains_overflowing_run, (hdr, width, height), found),
    ensures
        !found,
{
    lemma_first_texel(hdr@, blank, at);
    lemma_scales();
    assert(hdr@[at + 7] * 1 == hdr@[at + 7]);
    reveal_with_fuel(old_row_end, 3);
}

} // verus!
