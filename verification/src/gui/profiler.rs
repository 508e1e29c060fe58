//! The profiler's tree of timed scopes, laid out as rows.

use vstd::prelude::*;

verus! {

/// A timed scope. The time is text already, since it was measured as a floating-point number; a
/// scope whose timer was off has none.
#[derive(Debug)]
pub struct ProfilerScope {
    pub label: String,
    pub time: Option<String>,
    pub nested: Vec<ProfilerScope>,
}

/// A row of the profiler.
#[derive(Debug)]
pub enum ProfilerRow {
    /// A scope without nested scopes: its label, and its time at the right.
    Leaf { label: String, time: String },
    /// The header of a scope with nested scopes, whose rows follow up to the matching `Close`.
    Open { header: String, id: String, default_open: bool },
    /// The end of a scope's rows.
    Close,
    /// The end of a line.
    EndRow,
}

/// A row with its text.
pub enum RowText {
    Leaf { label: Seq<char>, time: Seq<char> },
    Open { header: Seq<char>, id: Seq<char>, default_open: bool },
    Close,
    EndRow,
}

impl View for ProfilerRow {
    type V = RowText;

    open spec fn view(&self) -> RowText {
        match self {
            ProfilerRow::Leaf { label, time } => RowText::Leaf { label: label@, time: time@ },
            ProfilerRow::Open { header, id, default_open } => RowText::Open {
                header: header@,
                id: id@,
                default_open: *default_open,
            },
            ProfilerRow::Close => RowText::Close,
            ProfilerRow::EndRow => RowText::EndRow,
        }
    }
}

/// The text of rows.
pub open spec fn row_texts(rows: Seq<ProfilerRow>) -> Seq<RowText> {
    rows.map_values(|row: ProfilerRow| row@)
}

/// The time of a scope as it is shown.
pub open spec fn shown_time(scope: ProfilerScope) -> Seq<char> {
    match scope.time {
        Some(time) => time@,
        None => "—"@,
    }
}

/// The rows of one scope. `levels` is how many levels of headers start out open.
pub open spec fn scope_rows(scope: ProfilerScope, levels: int) -> Seq<RowText>
    decreases scope,
{
    if scope.nested@.len() == 0 {
        seq![
            RowText::Leaf { label: scope.label@, time: shown_time(scope) },
            RowText::EndRow,
        ]
    } else {
        seq![
            RowText::Open {
                header: scope.label@ + "  -  "@ + shown_time(scope),
                id: scope.label@,
                default_open: levels > 0,
            },
        ] + rows_of(scope.nested@, levels - 1, scope.nested@.len()) + seq![
            RowText::Close,
            RowText::EndRow,
        ]
    }
}

/// The rows of the first `count` scopes.
pub open spec fn rows_of(scopes: Seq<ProfilerScope>, levels: int, count: nat) -> Seq<RowText>
    decreases scopes, count,
{
    if count == 0 || count > scopes.len() {
        Seq::empty()
    } else {
        rows_of(scopes, levels, (count - 1) as nat) + scope_rows(scopes[count - 1], levels)
    }
}

/// Below the last open level nothing changes any more.
proof fn lemma_closed_levels(scope: ProfilerScope, a: int, b: int)
    requires
        a <= 0,
        b <= 0,
    ensures
        scope_rows(scope, a) == scope_rows(scope, b),
    decreases scope,
{
    if scope.nested@.len() > 0 {
        lemma_closed_levels_of(scope.nested@, a - 1, b - 1, scope.nested@.len());
    }
}

proof fn lemma_closed_levels_of(scopes: Seq<ProfilerScope>, a: int, b: int, count: nat)
    requires
        a <= 0,
        b <= 0,
    ensures
        rows_of(scopes, a, count) == rows_of(scopes, b, count),
    decreases scopes, count,
{
    if count > 0 && count <= scopes.len() {
        lemma_closed_levels_of(scopes, a, b, (count - 1) as nat);
        lemma_closed_levels(scopes[count - 1], a, b);
    }
}

/// Lays scopes out as rows: a line for a scope without nested scopes, a header with the rows of
/// the nested scopes under it for any other. The headers of the first `levels_default_open`
/// levels start out open.
pub fn setup_ui_profiler(profiling_data: &Vec<ProfilerScope>, levels_default_open: i32) -> (rows:
    Vec<ProfilerRow>)
    ensures
        row_texts(rows@) == rows_of(
            profiling_data@,
            levels_default_open as int,
            profiling_data@.len(),
        ),
    decreases profiling_data,
{
    let mut rows: Vec<ProfilerRow> = Vec::new();
    let mut i: usize = 0;
    assert(row_texts(rows@) =~= Seq::empty());
    while i < profiling_data.len()
        invariant
            i <= profiling_data@.len(),
            row_texts(rows@) == rows_of(profiling_data@, levels_default_open as int, i as nat),
        decreases profiling_data@.len() - i,
    {
        let scope = &profiling_data[i];
        let ghost before = rows@;
        let time = match &scope.time {
            Some(time) => time.clone(),
            None => "—".to_owned(),
        };
        if scope.nested.len() == 0 {
            rows.push(ProfilerRow::Leaf { label: scope.label.clone(), time });
            rows.push(ProfilerRow::EndRow);
            assert(row_texts(rows@) =~= row_texts(before) + scope_rows(
                *scope,
                levels_default_open as int,
            ));
        } else {
            let header = scope.label.clone().concat("  -  ").concat(time.as_str());
            rows.push(
                ProfilerRow::Open {
                    header,
                    id: scope.label.clone(),
                    default_open: levels_default_open > 0,
                },
            );
            let levels_left: i32 = if levels_default_open > 0 {
                levels_default_open - 1
            } else {
                levels_default_open
            };
            assert(decreases_to!(profiling_data => scope.nested));
            let mut nested_rows = setup_ui_profiler(&scope.nested, levels_left);
            let ghost nested = nested_rows@;
            proof {
                if levels_default_open <= 0 {
                    lemma_closed_levels_of(
                        scope.nested@,
                        levels_left as int,
                        levels_default_open - 1,
                        scope.nested@.len(),
                    );
                }
            }
            rows.append(&mut nested_rows);
            rows.push(ProfilerRow::Close);
            rows.push(ProfilerRow::EndRow);
            assert(row_texts(rows@) =~= row_texts(before) + scope_rows(
                *scope,
                levels_default_open as int,
            ));
        }
        i += 1;
    }
    rows
}

/// How deep the rows are nested after some rows; negative once a `Close` had no `Open`.
pub open spec fn depth_after(rows: Seq<RowText>, depth: int) -> int
    decreases rows.len(),
{
    if rows.len() == 0 {
        depth
    } else {
        let before = depth_after(rows.drop_last(), depth);
        if before < 0 {
            before
        } else {
            match rows.last() {
                RowText::Open { .. } => before + 1,
                RowText::Close => before - 1,
                _ => before,
            }
        }
    }
}

proof fn lemma_depth_of_sum(a: Seq<RowText>, b: Seq<RowText>, depth: int)
    ensures
        depth_after(a + b, depth) == depth_after(b, depth_after(a, depth)),
    decreases b.len(),
{
    if b.len() == 0 {
        assert(a + b =~= a);
    } else {
        lemma_depth_of_sum(a, b.drop_last(), depth);
        assert((a + b).drop_last() =~= a + b.drop_last());
        assert((a + b).last() == b.last());
    }
}

/// The rows of any scopes nest: every header that is opened is closed, and none is closed that
/// was not opened.
pub proof fn law_profiler_rows_nest(scopes: Seq<ProfilerScope>, levels: int, count: nat, depth: int)
    requires
        depth >= 0,
    ensures
        depth_after(rows_of(scopes, levels, count), depth) == depth,
    decreases scopes, count,
{
    if count > 0 && count <= scopes.len() {
        law_profiler_rows_nest(scopes, levels, (count - 1) as nat, depth);
        lemma_scope_rows_nest(scopes[count - 1], levels, depth);
        lemma_depth_of_sum(
            rows_of(scopes, levels, (count - 1) as nat),
            scope_rows(scopes[count - 1], levels),
            depth,
        );
    }
}

proof fn lemma_scope_rows_nest(scope: ProfilerScope, levels: int, depth: int)
    requires
        depth >= 0,
    ensures
        depth_after(scope_rows(scope, levels), depth) == depth,
    decreases scope,
{
    let rows = scope_rows(scope, levels);
    reveal_with_fuel(depth_after, 3);
    if scope.nested@.len() == 0 {
        assert(rows.drop_last().drop_last() =~= Seq::empty());
    } else {
        let open = seq![rows[0]];
        let nested = rows_of(scope.nested@, levels - 1, scope.nested@.len());
        let close = seq![RowText::Close, RowText::EndRow];
        law_profiler_rows_nest(scope.nested@, levels - 1, scope.nested@.len(), depth + 1);
        assert(rows =~= open + nested + close);
        lemma_depth_of_sum(open, nested, depth);
        lemma_depth_of_sum(open + nested, close, depth);
        assert(open.drop_last() =~= Seq::empty());
        assert(close.drop_last().drop_last() =~= Seq::empty());
    }
}

/// Whether the header at `open` ends at `close`: the rows between nest.
pub open spec fn closes(rows: Seq<RowText>, open: int, close: int) -> bool {
    &&& open < close < rows.len()
    &&& rows[close] is Close
    &&& depth_after(rows.subrange(open + 1, close), 0) == 0
}

/// Finds where the rows under a header end; none if they do not.
pub fn header_end(rows: &[ProfilerRow], open: usize) -> (close: Option<usize>)
    requires
        open < rows@.len(),
    ensures
        match close {
            Some(close) => closes(row_texts(rows@), open as int, close as int),
            None => forall|close: int| !closes(row_texts(rows@), open as int, close),
        },
{
    let n: usize = rows.len();
    let ghost texts = row_texts(rows@);
    let mut depth: usize = 0;
    let mut i: usize = open + 1;
    assert(texts.subrange(open + 1, i as int) =~= Seq::empty());
    while i < n
        invariant
            n == rows@.len(),
            open < i <= n,
            texts == row_texts(rows@),
            depth <= i - open - 1,
            depth == depth_after(texts.subrange(open + 1, i as int), 0),
            forall|close: int| close < i ==> !closes(texts, open as int, close),
        decreases n - i,
    {
        proof {
            let longer = texts.subrange(open + 1, i + 1);
            assert(longer.drop_last() =~= texts.subrange(open + 1, i as int));
            assert(longer.last() == rows@[i as int]@);
            assert(texts[i as int] == rows@[i as int]@);
        }
        match &rows[i] {
            ProfilerRow::Open { .. } => {
                depth += 1;
            },
            ProfilerRow::Close => {
                if depth == 0 {
                    return Some(i);
                }
                depth -= 1;
            },
            _ => {},
        }
        i += 1;
    }
    None
}

/// Headers around rows do not matter as long as the rows close none of them.
proof fn lemma_depth_shift(rows: Seq<RowText>, depth: int)
    requires
        depth >= 0,
        depth_after(rows, 0) >= 0,
    ensures
        depth_after(rows, depth) == depth_after(rows, 0) + depth,
    decreases rows.len(),
{
    if rows.len() > 0 {
        lemma_depth_shift(rows.drop_last(), depth);
    }
}

/// A negative depth stays.
proof fn lemma_negative_depth(rows: Seq<RowText>, depth: int)
    requires
        depth < 0,
    ensures
        depth_after(rows, depth) == depth,
    decreases rows.len(),
{
    if rows.len() > 0 {
        lemma_negative_depth(rows.drop_last(), depth);
    }
}

/// Under a header that ends nowhere the depth never falls.
pub(crate) proof fn lemma_depth_of_unclosed(rows: Seq<RowText>, open: int, end: int)
    requires
        0 <= open < end <= rows.len(),
        forall|close: int| !closes(rows, open, close),
    ensures
        depth_after(rows.subrange(open + 1, end), 0) >= 0,
    decreases end,
{
    let body = rows.subrange(open + 1, end);
    if end > open + 1 {
        lemma_depth_of_unclosed(rows, open, end - 1);
        assert(body.drop_last() =~= rows.subrange(open + 1, end - 1));
        assert(!closes(rows, open, end - 1));
    }
}

/// In rows that nest every header has an end.
pub proof fn law_headers_are_closed(rows: Seq<RowText>, open: int)
    requires
        depth_after(rows, 0) == 0,
        0 <= open < rows.len(),
        rows[open] is Open,
    ensures
        exists|close: int| closes(rows, open, close),
{
    let n = rows.len() as int;
    if forall|close: int| !closes(rows, open, close) {
        lemma_depth_of_unclosed(rows, open, n);
        let before = rows.subrange(0, open + 1);
        let rest = rows.subrange(open + 1, n);
        assert(rows =~= before + rest);
        lemma_depth_of_sum(before, rest, 0);
        assert(before.last() is Open);
        if depth_after(before, 0) < 0 {
            lemma_negative_depth(rest, depth_after(before, 0));
        } else {
            lemma_depth_shift(rest, depth_after(before, 0));
        }
    }
}

} // verus!
