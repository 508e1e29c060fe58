//! The profiler: which rows a scope has, and where they end.

use crate::gui::profiler::{
    closes, depth_after, header_end, lemma_depth_of_unclosed, row_texts, rows_of, scope_rows,
    setup_ui_profiler, ProfilerRow, ProfilerScope, RowText,
};
use vstd::prelude::*;

verus! {

/// Whether a text is the time of a scope: a dash where there is none.
pub open spec fn is_time(scope: ProfilerScope, text: Seq<char>) -> bool {
    match scope.time {
        Some(time) => text == time@,
        None => text == seq!['—'],
    }
}

/// Whether two rows are the same.
pub open spec fn same_row(a: ProfilerRow, b: ProfilerRow) -> bool {
    match (a, b) {
        (
            ProfilerRow::Leaf { label: first, time: first_time },
            ProfilerRow::Leaf { label: second, time: second_time },
        ) => first@ == second@ && first_time@ == second_time@,
        (
            ProfilerRow::Open { header: first, id: first_id, default_open: first_open },
            ProfilerRow::Open { header: second, id: second_id, default_open: second_open },
        ) => first@ == second@ && first_id@ == second_id@ && first_open == second_open,
        (ProfilerRow::Close, ProfilerRow::Close) => true,
        (ProfilerRow::EndRow, ProfilerRow::EndRow) => true,
        _ => false,
    }
}

/// Only the scopes that are laid out matter.
proof fn lemma_rows_of_first(a: Seq<ProfilerScope>, b: Seq<ProfilerScope>, levels: int, count: nat)
    requires
        count <= a.len(),
        count <= b.len(),
        forall|i: int| 0 <= i < count ==> #[trigger] a[i] == b[i],
    ensures
        rows_of(a, levels, count) == rows_of(b, levels, count),
    decreases count,
{
    if count > 0 {
        lemma_rows_of_first(a, b, levels, (count - 1) as nat);
        assert(a[count - 1] == b[count - 1]);
    }
}

/// Without scopes there are no rows. One more scope leaves the rows before it as they are and adds
/// its own: one line with its label and its time if nothing is nested in it, and else a header with
/// both, which starts out open as long as there are levels to open, then the rows of what is nested
/// in it, laid out with one level less, and the end of the header.
pub proof fn law_rows_of_a_scope(
    before: &Vec<ProfilerScope>,
    scope: ProfilerScope,
    data: &Vec<ProfilerScope>,
    levels: i32,
    earlier: Vec<ProfilerRow>,
    rows: Vec<ProfilerRow>,
    nested: &Vec<ProfilerScope>,
    inner: Vec<ProfilerRow>,
    i: int,
)
    requires
        levels > i32::MIN,
        data@ == before@.push(scope),
        nested@ == scope.nested@,
        call_ensures(setup_ui_profiler, (before, levels), earlier),
        call_ensures(setup_ui_profiler, (data, levels), rows),
        call_ensures(setup_ui_profiler, (nested, (levels - 1) as i32), inner),
    ensures
        before@.len() == 0 ==> earlier@.len() == 0,
        ({
            let n = earlier@.len() as int;
            let m = inner@.len() as int;
            &&& n + 2 <= rows@.len()
            &&& 0 <= i < n ==> same_row(rows@[i], earlier@[i])
            &&& rows@.last() is EndRow
            &&& if scope.nested@.len() == 0 {
                &&& rows@.len() == n + 2
                &&& rows@[n] matches ProfilerRow::Leaf { label, time } && label@ == scope.label@
                    && is_time(scope, time@)
            } else {
                &&& rows@.len() == n + m + 3
                &&& rows@[n] matches ProfilerRow::Open { header, id, default_open } && {
                    let k = scope.label@.len() as int;
                    &&& id@ == scope.label@
                    &&& header@.len() >= k + 5
                    &&& header@.take(k) == scope.label@
                    &&& header@.subrange(k, k + 5) == seq![' ', ' ', '-', ' ', ' ']
                    &&& is_time(scope, header@.skip(k + 5))
                    &&& default_open <==> levels > 0
                }
                &&& 0 <= i < m ==> same_row(rows@[n + 1 + i], inner@[i])
                &&& rows@[n + 1 + m] is Close
            }
        }),
{
    reveal_strlit("  -  ");
    reveal_strlit("—");
    assert("—"@ =~= seq!['—']);
    let l = levels as int;
    let n = earlier@.len() as int;
    let m = inner@.len() as int;
    lemma_rows_of_first(before@, data@, l, before@.len());
    assert(data@[data@.len() - 1] == scope);
    let block = scope_rows(scope, l);
    let all = row_texts(rows@);
    assert(all == row_texts(earlier@) + block);
    assert(all.len() == rows@.len());
    assert(row_texts(earlier@).len() == n);
    assert(row_texts(inner@).len() == m);
    assert forall|j: int| 0 <= j < rows@.len() implies #[trigger] all[j] == rows@[j]@ by {}
    assert(rows@.last()@ == all[rows@.len() - 1]);
    assert(all[n] == rows@[n]@);
    if 0 <= i < n {
        assert(all[i] == row_texts(earlier@)[i]);
        assert(rows@[i]@ == earlier@[i]@);
    }
    if scope.nested@.len() > 0 {
        assert(block.len() == m + 3);
        assert(all[n + 1 + m] == rows@[n + 1 + m]@);
        assert(block[1 + m] == RowText::Close);
        if 0 <= i < m {
            assert(all[n + 1 + i] == block[1 + i]);
            assert(block[1 + i] == row_texts(inner@)[i]);
            assert(rows@[n + 1 + i]@ == inner@[i]@);
        }
        if let ProfilerRow::Open { header, id, default_open } = rows@[n] {
            let k = scope.label@.len() as int;
            assert(header@.take(k) =~= scope.label@);
            assert(header@.subrange(k, k + 5) =~= seq![' ', ' ', '-', ' ', ' ']);
            assert(header@.skip(k + 5) =~= crate::gui::profiler::shown_time(scope));
        }
    }
}

/// How many headers are opened among so many rows from a place on.
pub open spec fn opened(rows: Seq<ProfilerRow>, from: int, count: int) -> int
    decreases count,
{
    if count <= 0 {
        0
    } else {
        opened(rows, from, count - 1) + if rows[from + count - 1] is Open {
            1int
        } else {
            0int
        }
    }
}

/// How many headers end among so many rows from a place on.
pub open spec fn closed(rows: Seq<ProfilerRow>, from: int, count: int) -> int
    decreases count,
{
    if count <= 0 {
        0
    } else {
        closed(rows, from, count - 1) + if rows[from + count - 1] is Close {
            1int
        } else {
            0int
        }
    }
}

proof fn lemma_depth_is_the_difference(rows: Seq<ProfilerRow>, from: int, count: int)
    requires
        0 <= from,
        0 <= count <= rows.len() - from,
        depth_after(row_texts(rows).subrange(from, from + count), 0) >= 0,
    ensures
        depth_after(row_texts(rows).subrange(from, from + count), 0) == opened(rows, from, count)
            - closed(rows, from, count),
        forall|k: int|
            0 <= k <= count ==> #[trigger] closed(rows, from, k) <= opened(rows, from, k),
    decreases count,
{
    let part = row_texts(rows).subrange(from, from + count);
    if count > 0 {
        assert(part.drop_last() =~= row_texts(rows).subrange(from, from + count - 1));
        assert(part.last() == rows[from + count - 1]@);
        lemma_depth_is_the_difference(rows, from, count - 1);
        assert(closed(rows, from, count) <= opened(rows, from, count));
    }
}

/// The end of a header is the first row behind which more headers have ended than were opened: up
/// to there never more have ended, and right before it the two are equal. A header without an end
/// has no such row.
pub proof fn law_end_of_a_header(
    rows: &[ProfilerRow],
    open: usize,
    end: Option<usize>,
    count: int,
)
    requires
        open < rows@.len(),
        call_ensures(header_end, (rows, open), end),
        0 <= count < rows@.len() - open,
    ensures
        end matches Some(close) ==> {
            &&& open < close < rows@.len()
            &&& rows@[close as int] is Close
            &&& opened(rows@, open + 1, close - open - 1) == closed(
                rows@,
                open + 1,
                close - open - 1,
            )
            &&& count < close - open ==> closed(rows@, open + 1, count) <= opened(
                rows@,
                open + 1,
                count,
            )
        },
        end is None ==> closed(rows@, open + 1, count) <= opened(rows@, open + 1, count),
{
    let texts = row_texts(rows@);
    if let Some(close) = end {
        assert(texts[close as int] == rows@[close as int]@);
        lemma_depth_is_the_difference(rows@, open + 1, close - open - 1);
    } else {
        let arguments = (rows, open);
        assert forall|close: int| !closes(texts, open as int, close) by {
            assert(!closes(row_texts(arguments.0@), arguments.1 as int, close));
        }
        lemma_depth_of_unclosed(texts, open as int, open + 1 + count);
        lemma_depth_is_the_difference(rows@, open + 1, count);
    }
}

} // verus!
