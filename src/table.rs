//! Table transform engine: row/column insertion, deletion and moves, cell
//! merge and split, styling and sizing of a single table.
use vstd::prelude::*;
use vstd::string::StringExecFns;

use crate::doc::{
    default_cell, merged_cell_style, views, CellStyle, CellView, InlineSpan, InlineStyle, RowView,
    SpanView, StyleView, Table, TableCell, TableRow, TableView, DEFAULT_COLUMN_WIDTH,
};
use crate::inline::{
    apply_style, base_spans, byte_len, concat_text, cuts_fit, cuts_ok, lemma_styled_keeps_text,
    stored, styled, total_blen,
};

verus! {

/// Smallest column width, in pixels, that a setter accepts.
pub const MIN_COLUMN_WIDTH: u32 = 20;

/// Smallest row height, in pixels, that a setter accepts.
pub const MIN_ROW_HEIGHT: u32 = 12;

// ---------------------------------------------------------------- sequences

/// `s` with the element at `from` removed and reinserted at `to`.
pub open spec fn seq_move<A>(s: Seq<A>, from: int, to: int) -> Seq<A> {
    s.remove(from).insert(to, s[from])
}

pub open spec fn min_int(a: int, b: int) -> int {
    if a <= b {
        a
    } else {
        b
    }
}

pub open spec fn max_int(a: int, b: int) -> int {
    if a >= b {
        a
    } else {
        b
    }
}

/// Clamps a requested move index to the last valid index of a sequence of
/// length `len` (to 0 when it is empty).
pub open spec fn clamp_last(x: int, len: int) -> int {
    min_int(x, max_int(len - 1, 0))
}

// ---------------------------------------------------------------- cell maps

/// A row whose every cell `j` is replaced by `f(j, cell)`.
pub open spec fn map_row(row: RowView, f: spec_fn(int, CellView) -> CellView) -> RowView {
    RowView { cells: Seq::new(row.cells.len(), |j: int| f(j, row.cells[j])), height_px: row.height_px }
}

/// A table whose every cell `(i, j)` is replaced by `f(i, j, cell)`.
pub open spec fn map_cells(t: TableView, f: spec_fn(int, int, CellView) -> CellView) -> TableView {
    TableView {
        rows: Seq::new(t.rows.len(), |i: int| map_row(t.rows[i], |j: int, c: CellView| f(i, j, c))),
        ..t
    }
}

/// Whether `(r, c)` names an existing cell.
pub open spec fn has_cell(t: TableView, r: int, c: int) -> bool {
    0 <= r < t.rows.len() && 0 <= c < t.rows[r].cells.len()
}

/// The table with cell `(r, c)` replaced by `f` of it; unchanged when there
/// is no such cell.
pub open spec fn update_cell(t: TableView, r: int, c: int, f: spec_fn(CellView) -> CellView) -> TableView {
    if has_cell(t, r, c) {
        TableView {
            rows: t.rows.update(
                r,
                RowView { cells: t.rows[r].cells.update(c, f(t.rows[r].cells[c])), ..t.rows[r] },
            ),
            ..t
        }
    } else {
        t
    }
}

// ---------------------------------------------------------------- rows and columns

/// The number of cells a new row gets: the larger of the width list's length
/// and the first row's length.
pub open spec fn column_count(t: TableView) -> int {
    max_int(t.column_widths.len() as int, if t.rows.len() > 0 { t.rows[0].cells.len() as int } else { 0 })
}

pub open spec fn default_row(n: int) -> RowView {
    RowView { cells: Seq::new(n as nat, |j: int| default_cell()), height_px: None }
}

pub open spec fn add_row_spec(t: TableView, at: int) -> TableView {
    TableView {
        rows: t.rows.insert(min_int(at, t.rows.len() as int), default_row(column_count(t))),
        ..t
    }
}

pub open spec fn add_col_spec(t: TableView, at: int) -> TableView {
    let idx = min_int(at, t.column_widths.len() as int);
    TableView {
        rows: Seq::new(
            t.rows.len(),
            |i: int|
                RowView {
                    cells: t.rows[i].cells.insert(min_int(idx, t.rows[i].cells.len() as int), default_cell()),
                    ..t.rows[i]
                },
        ),
        column_widths: t.column_widths.insert(idx, DEFAULT_COLUMN_WIDTH),
        ..t
    }
}

pub open spec fn delete_row_spec(t: TableView, at: int) -> TableView {
    if 0 <= at < t.rows.len() {
        TableView { rows: t.rows.remove(at), ..t }
    } else {
        t
    }
}

pub open spec fn delete_col_spec(t: TableView, at: int) -> TableView {
    if 0 <= at < t.column_widths.len() {
        TableView {
            rows: Seq::new(
                t.rows.len(),
                |i: int|
                    if at < t.rows[i].cells.len() {
                        RowView { cells: t.rows[i].cells.remove(at), ..t.rows[i] }
                    } else {
                        t.rows[i]
                    },
            ),
            column_widths: t.column_widths.remove(at),
            ..t
        }
    } else {
        t
    }
}

pub open spec fn move_row_spec(t: TableView, from: int, to: int) -> TableView {
    let len = t.rows.len() as int;
    let f = clamp_last(from, len);
    let g = clamp_last(to, len);
    if f == g || f >= len {
        t
    } else {
        TableView { rows: seq_move(t.rows, f, g), ..t }
    }
}

/// A row's cells after a column move: the cell at `f`, where the row has one,
/// is removed and reinserted at `g`, or at the row's end if it is shorter.
pub open spec fn move_cells(cells: Seq<CellView>, f: int, g: int) -> Seq<CellView> {
    if f < cells.len() {
        cells.remove(f).insert(min_int(g, cells.len() - 1), cells[f])
    } else {
        cells
    }
}

pub open spec fn move_col_spec(t: TableView, from: int, to: int) -> TableView {
    let len = t.column_widths.len() as int;
    let f = clamp_last(from, len);
    let g = clamp_last(to, len);
    if f == g || f >= len {
        t
    } else {
        TableView {
            rows: Seq::new(
                t.rows.len(),
                |i: int| RowView { cells: move_cells(t.rows[i].cells, f, g), ..t.rows[i] },
            ),
            column_widths: seq_move(t.column_widths, f, g),
            ..t
        }
    }
}

// ---------------------------------------------------------------- merge and split

/// A rectangle of cells, bounds included.
#[derive(Clone, Copy, PartialEq, Eq, Structural)]
pub struct Rect {
    pub min_r: usize,
    pub max_r: usize,
    pub min_c: usize,
    pub max_c: usize,
}

impl Rect {
    pub open spec fn contains(self, i: int, j: int) -> bool {
        self.min_r <= i <= self.max_r && self.min_c <= j <= self.max_c
    }
}

/// The bounding rectangle of two corners.
pub open spec fn bounding(sr: usize, sc: usize, er: usize, ec: usize) -> Rect {
    Rect {
        min_r: if sr <= er { sr } else { er },
        max_r: if sr >= er { sr } else { er },
        min_c: if sc <= ec { sc } else { ec },
        max_c: if sc >= ec { sc } else { ec },
    }
}

/// The texts of the cells of row `row` in columns `lo..hi`.
pub open spec fn row_texts(row: RowView, lo: int, hi: int) -> Seq<Seq<char>> {
    Seq::new((hi - lo) as nat, |x: int| row.cells[lo + x].text)
}

/// The end (exclusive) of the columns of a rectangle that a row really has.
pub open spec fn row_end(row: RowView, g: Rect) -> int {
    min_int(g.max_c + 1, row.cells.len() as int)
}

/// Row-major texts of the existing cells of rows `g.min_r..hi` within the
/// rectangle's columns.
pub open spec fn rect_texts(t: TableView, g: Rect, hi: int) -> Seq<Seq<char>>
    decreases hi - g.min_r,
{
    if hi <= g.min_r {
        Seq::empty()
    } else {
        rect_texts(t, g, hi - 1) + row_texts(t.rows[hi - 1], g.min_c as int, max_int(row_end(t.rows[hi - 1], g), g.min_c as int))
    }
}

/// `acc` followed by `p`, with a single space between them when both are
/// non-empty.
pub open spec fn join_step(acc: Seq<char>, p: Seq<char>) -> Seq<char> {
    if p.len() == 0 {
        acc
    } else if acc.len() == 0 {
        p
    } else {
        acc + seq![' '] + p
    }
}

/// The non-empty parts, joined by single spaces.
pub open spec fn join_nonempty(parts: Seq<Seq<char>>) -> Seq<char>
    decreases parts.len(),
{
    if parts.len() == 0 {
        Seq::empty()
    } else {
        join_step(join_nonempty(parts.drop_last()), parts.last())
    }
}

/// Whether the corners name a rectangle the merge can act on: both rows exist
/// and both columns exist in the top row of the rectangle.
pub open spec fn merge_applies(t: TableView, sr: usize, sc: usize, er: usize, ec: usize) -> bool {
    let g = bounding(sr, sc, er, ec);
    sr < t.rows.len() && er < t.rows.len() && g.max_c < t.rows[g.min_r as int].cells.len()
}

/// A cell after a merge over `g` whose master gets text `text`.
pub open spec fn merged_cell(g: Rect, text: Seq<char>, i: int, j: int, c: CellView) -> CellView {
    if !g.contains(i, j) {
        c
    } else if i == g.min_r && j == g.min_c {
        CellView {
            text,
            colspan: (g.max_c - g.min_c + 1) as u32,
            rowspan: (g.max_r - g.min_r + 1) as u32,
            placeholder: false,
            spans: if text == c.text { c.spans } else { None },
            ..c
        }
    } else {
        CellView { text: Seq::empty(), colspan: 1, rowspan: 1, placeholder: true, spans: None, ..c }
    }
}

/// The text that the master cell of a merge gets.
pub open spec fn merge_text(t: TableView, g: Rect) -> Seq<char> {
    join_nonempty(rect_texts(t, g, g.max_r + 1))
}

/// A cell after a split that resets the cells of `g`.
pub open spec fn split_cell_at(g: Rect, i: int, j: int, c: CellView) -> CellView {
    if g.contains(i, j) {
        unspanned(c)
    } else {
        c
    }
}

pub open spec fn merge_spec(t: TableView, sr: usize, sc: usize, er: usize, ec: usize) -> TableView {
    let g = bounding(sr, sc, er, ec);
    if merge_applies(t, sr, sc, er, ec) {
        map_cells(t, |i: int, j: int, c: CellView| merged_cell(g, merge_text(t, g), i, j, c))
    } else {
        t
    }
}

/// The cells that a split of `(r, c)` resets: those of the rectangle its
/// spans covered.
pub open spec fn split_area(t: TableView, r: int, c: int) -> Rect {
    let cell = t.rows[r].cells[c];
    let rs = if cell.rowspan >= 1 { cell.rowspan as int } else { 1 };
    let cs = if cell.colspan >= 1 { cell.colspan as int } else { 1 };
    Rect {
        min_r: r as usize,
        max_r: min_int(r + rs - 1, usize::MAX as int) as usize,
        min_c: c as usize,
        max_c: min_int(c + cs - 1, usize::MAX as int) as usize,
    }
}

/// A cell back to one by one and no longer a placeholder.
pub open spec fn unspanned(c: CellView) -> CellView {
    CellView { colspan: 1, rowspan: 1, placeholder: false, ..c }
}

pub open spec fn split_spec(t: TableView, r: int, c: int) -> TableView {
    if has_cell(t, r, c) {
        let g = split_area(t, r, c);
        map_cells(t, |i: int, j: int, x: CellView| split_cell_at(g, i, j, x))
    } else {
        t
    }
}

// ---------------------------------------------------------------- styling and sizing

pub open spec fn set_column_width_spec(t: TableView, col: int, px: u32) -> TableView {
    let widths = if col >= t.column_widths.len() {
        t.column_widths + Seq::new((col + 1 - t.column_widths.len()) as nat, |k: int| DEFAULT_COLUMN_WIDTH)
    } else {
        t.column_widths
    };
    TableView {
        column_widths: widths.update(col, if px >= MIN_COLUMN_WIDTH { px } else { MIN_COLUMN_WIDTH }),
        ..t
    }
}

pub open spec fn set_row_height_spec(t: TableView, r: int, px: u32) -> TableView {
    if 0 <= r < t.rows.len() {
        TableView {
            rows: t.rows.update(
                r,
                RowView {
                    height_px: Some(if px >= MIN_ROW_HEIGHT { px } else { MIN_ROW_HEIGHT }),
                    ..t.rows[r]
                },
            ),
            ..t
        }
    } else {
        t
    }
}

/// A byte range clamped to a text of `len` bytes, its end floored to its start.
pub open spec fn clamped_range(start: int, end: int, len: int) -> (int, int) {
    let s = min_int(start, len);
    let e = max_int(min_int(end, len), s);
    (s, e)
}

/// A text and its spans after `delta` is applied to bytes `start..end`; left
/// as they are when the range cannot be cut on character boundaries.
pub open spec fn styled_text_spans(
    text: Seq<char>,
    spans: Option<Seq<SpanView>>,
    start: int,
    end: int,
    delta: StyleView,
) -> Option<Seq<SpanView>> {
    let (s, e) = clamped_range(start, end, crate::inline::blen(text));
    let base = base_spans(text, spans);
    if cuts_ok(base, s, e) && total_blen(base) <= usize::MAX {
        stored(styled(base, s, e, delta))
    } else {
        spans
    }
}

/// Styling a text keeps its spans faithful to it: when the stored spans
/// spell out the text (or there are none), so do the spans afterwards.
pub proof fn lemma_styled_spans_spell_text(
    text: Seq<char>,
    spans: Option<Seq<SpanView>>,
    start: int,
    end: int,
    delta: StyleView,
)
    requires
        match spans {
            Some(sp) => concat_text(sp) == text,
            None => true,
        },
    ensures
        match styled_text_spans(text, spans, start, end, delta) {
            Some(sp) => concat_text(sp) == text,
            None => true,
        },
{
    let (s, e) = clamped_range(start, end, crate::inline::blen(text));
    let base = base_spans(text, spans);
    if spans is None && text.len() > 0 {
        let one = seq![SpanView { text, style: crate::doc::plain_style() }];
        assert(one.drop_last() =~= Seq::<SpanView>::empty());
        assert(concat_text(Seq::<SpanView>::empty()) == Seq::<char>::empty());
        assert(concat_text(one) =~= text);
    }
    if cuts_ok(base, s, e) && total_blen(base) <= usize::MAX {
        lemma_styled_keeps_text(base, s, e, delta);
    }
}

// ---------------------------------------------------------------- exec

/// A fresh row of `n` default cells.
pub fn new_row(n: usize) -> (r: TableRow)
    ensures
        r@ == default_row(n as int),
{
    let mut cells: Vec<TableCell> = Vec::new();
    let mut k: usize = 0;
    while k < n
        invariant
            k <= n,
            cells@.len() == k,
            forall|j: int| 0 <= j < k ==> (#[trigger] cells@[j])@ == default_cell(),
        decreases n - k,
    {
        cells.push(TableCell::default());
        k += 1;
    }
    let r = TableRow { cells, height_px: None };
    assert(r@.cells =~= default_row(n as int).cells);
    r
}

/// Spans stored after styling `start..end` of `text`; the old spans when the
/// range cannot be cut.
pub fn style_spans(
    text: &String,
    spans: &Option<Vec<InlineSpan>>,
    start: usize,
    end: usize,
    delta: &InlineStyle,
) -> (r: Option<Vec<InlineSpan>>)
    ensures
        crate::doc::opt_views(r) == styled_text_spans(
            text@,
            crate::doc::opt_views(*spans),
            start as int,
            end as int,
            delta@,
        ),
{
    let total = byte_len(text);
    let s = if start < total {
        start
    } else {
        total
    };
    let e0 = if end < total {
        end
    } else {
        total
    };
    let e = if e0 > s {
        e0
    } else {
        s
    };
    let base: Vec<InlineSpan> = match spans {
        Some(sp) => crate::doc::copy_vec(sp),
        None => {
            if text.as_str().is_empty() {
                Vec::new()
            } else {
                let mut v: Vec<InlineSpan> = Vec::new();
                v.push(InlineSpan { text: text.clone(), style: InlineStyle::plain() });
                v
            }
        },
    };
    assert(views(base@) =~= base_spans(text@, crate::doc::opt_views(*spans)));
    if cuts_fit(&base, s, e) {
        let acc = apply_style(&base, s, e, delta);
        if acc.len() == 0 {
            None
        } else {
            Some(acc)
        }
    } else {
        crate::doc::copy_opt_vec(spans)
    }
}

/// Inserts a default cell at `idx`, clamped to the row's length.
fn row_insert_cell(row: &mut TableRow, idx: usize)
    ensures
        final(row)@ == (RowView {
            cells: old(row)@.cells.insert(min_int(idx as int, old(row)@.cells.len() as int), default_cell()),
            ..old(row)@
        }),
{
    let ci = if idx < row.cells.len() {
        idx
    } else {
        row.cells.len()
    };
    row.cells.insert(ci, TableCell::default());
    assert(final(row)@.cells =~= old(row)@.cells.insert(ci as int, default_cell()));
}

/// Removes the cell at `at` if the row has one.
fn row_remove_cell(row: &mut TableRow, at: usize)
    ensures
        final(row)@ == if at < old(row)@.cells.len() {
            RowView { cells: old(row)@.cells.remove(at as int), ..old(row)@ }
        } else {
            old(row)@
        },
{
    if at < row.cells.len() {
        row.cells.remove(at);
        assert(final(row)@.cells =~= old(row)@.cells.remove(at as int));
    }
}

/// Moves the cell at `f`, if any, to `g` or to the row's end.
fn row_move_cell(row: &mut TableRow, f: usize, g: usize)
    ensures
        final(row)@ == (RowView { cells: move_cells(old(row)@.cells, f as int, g as int), ..old(row)@ }),
{
    if f < row.cells.len() {
        let cell = row.cells.remove(f);
        let ti = if g < row.cells.len() {
            g
        } else {
            row.cells.len()
        };
        row.cells.insert(ti, cell);
        assert(final(row)@.cells =~= move_cells(old(row)@.cells, f as int, g as int));
    } else {
        assert(final(row)@.cells =~= old(row)@.cells);
    }
}

impl Table {
    /// Inserts a row of default cells at `at`, clamped to the row count.
    pub fn add_row(&mut self, at: usize)
        ensures
            final(self)@ == add_row_spec(old(self)@, at as int),
    {
        let w = self.column_widths.len();
        let first = if self.rows.len() > 0 {
            self.rows[0].cells.len()
        } else {
            0
        };
        let cols = if w >= first {
            w
        } else {
            first
        };
        let row = new_row(cols);
        let idx = if at < self.rows.len() {
            at
        } else {
            self.rows.len()
        };
        self.rows.insert(idx, row);
        assert(final(self)@.rows =~= add_row_spec(old(self)@, at as int).rows);
    }

    /// Inserts a column of default cells at `at`, clamped to the width list.
    pub fn add_col(&mut self, at: usize)
        ensures
            final(self)@ == add_col_spec(old(self)@, at as int),
    {
        let ghost t0 = self@;
        let idx = if at < self.column_widths.len() {
            at
        } else {
            self.column_widths.len()
        };
        let mut i: usize = 0;
        while i < self.rows.len()
            invariant
                t0 == old(self)@,
                idx == min_int(at as int, t0.column_widths.len() as int),
                self.column_widths@ == t0.column_widths,
                self.freeze_header == t0.freeze_header,
                self.freeze_first_col == t0.freeze_first_col,
                i <= t0.rows.len(),
                self@.rows.len() == t0.rows.len(),
                forall|k: int|
                    0 <= k < t0.rows.len() ==> (#[trigger] self@.rows[k]) == if k < i {
                        add_col_spec(t0, at as int).rows[k]
                    } else {
                        t0.rows[k]
                    },
            decreases t0.rows.len() - i,
        {
            let ghost before = self@.rows;
            assert(before[i as int] == t0.rows[i as int]);
            assert(self.rows@[i as int]@ == t0.rows[i as int]);
            row_insert_cell(&mut self.rows[i], idx);
            assert(self@.rows == before.update(i as int, self@.rows[i as int]));
            assert(self@.rows[i as int].cells == t0.rows[i as int].cells.insert(min_int(idx as int, t0.rows[i as int].cells.len() as int), default_cell()));
            assert(self@.rows[i as int].height_px == t0.rows[i as int].height_px);
            i += 1;
        }
        self.column_widths.insert(idx, DEFAULT_COLUMN_WIDTH);
        assert(self@.rows =~= add_col_spec(t0, at as int).rows);
    }

    /// Removes row `at` if it exists.
    pub fn delete_row(&mut self, at: usize)
        ensures
            final(self)@ == delete_row_spec(old(self)@, at as int),
    {
        if at < self.rows.len() {
            self.rows.remove(at);
            assert(final(self)@.rows =~= delete_row_spec(old(self)@, at as int).rows);
        }
    }

    /// Removes column `at` if the width list has it, from every row long
    /// enough to hold it.
    pub fn delete_col(&mut self, at: usize)
        ensures
            final(self)@ == delete_col_spec(old(self)@, at as int),
    {
        if at >= self.column_widths.len() {
            return ;
        }
        let ghost t0 = self@;
        let mut i: usize = 0;
        while i < self.rows.len()
            invariant
                t0 == old(self)@,
                at < t0.column_widths.len(),
                self.column_widths@ == t0.column_widths,
                self.freeze_header == t0.freeze_header,
                self.freeze_first_col == t0.freeze_first_col,
                i <= t0.rows.len(),
                self@.rows.len() == t0.rows.len(),
                forall|k: int|
                    0 <= k < t0.rows.len() ==> (#[trigger] self@.rows[k]) == if k < i {
                        delete_col_spec(t0, at as int).rows[k]
                    } else {
                        t0.rows[k]
                    },
            decreases t0.rows.len() - i,
        {
            let ghost before = self@.rows;
            assert(before[i as int] == t0.rows[i as int]);
            assert(self.rows@[i as int]@ == t0.rows[i as int]);
            row_remove_cell(&mut self.rows[i], at);
            assert(self@.rows == before.update(i as int, self@.rows[i as int]));
            let ghost want = delete_col_spec(t0, at as int).rows[i as int];
            assert(self@.rows[i as int].cells == want.cells);
            assert(self@.rows[i as int].height_px == want.height_px);
            i += 1;
        }
        self.column_widths.remove(at);
        assert(self@.rows =~= delete_col_spec(t0, at as int).rows);
    }

    /// Moves row `from` to `to`, both clamped to the last row.
    pub fn move_row(&mut self, from: usize, to: usize)
        ensures
            final(self)@ == move_row_spec(old(self)@, from as int, to as int),
    {
        let len = self.rows.len();
        let last = if len > 0 {
            len - 1
        } else {
            0
        };
        let f = if from < last {
            from
        } else {
            last
        };
        let g = if to < last {
            to
        } else {
            last
        };
        if f == g || f >= len {
            return ;
        }
        let row = self.rows.remove(f);
        self.rows.insert(g, row);
        assert(final(self)@.rows =~= move_row_spec(old(self)@, from as int, to as int).rows);
    }

    /// Moves column `from` to `to`, both clamped to the last column of the
    /// width list.
    pub fn move_col(&mut self, from: usize, to: usize)
        ensures
            final(self)@ == move_col_spec(old(self)@, from as int, to as int),
    {
        let len = self.column_widths.len();
        let last = if len > 0 {
            len - 1
        } else {
            0
        };
        let f = if from < last {
            from
        } else {
            last
        };
        let g = if to < last {
            to
        } else {
            last
        };
        if f == g || f >= len {
            return ;
        }
        let ghost t0 = self@;
        let mut i: usize = 0;
        while i < self.rows.len()
            invariant
                t0 == old(self)@,
                f == clamp_last(from as int, t0.column_widths.len() as int),
                g == clamp_last(to as int, t0.column_widths.len() as int),
                f != g,
                f < t0.column_widths.len(),
                self.column_widths@ == t0.column_widths,
                self.freeze_header == t0.freeze_header,
                self.freeze_first_col == t0.freeze_first_col,
                i <= t0.rows.len(),
                self@.rows.len() == t0.rows.len(),
                forall|k: int|
                    0 <= k < t0.rows.len() ==> (#[trigger] self@.rows[k]) == if k < i {
                        move_col_spec(t0, from as int, to as int).rows[k]
                    } else {
                        t0.rows[k]
                    },
            decreases t0.rows.len() - i,
        {
            let ghost before = self@.rows;
            assert(before[i as int] == t0.rows[i as int]);
            assert(self.rows@[i as int]@ == t0.rows[i as int]);
            row_move_cell(&mut self.rows[i], f, g);
            assert(self@.rows == before.update(i as int, self@.rows[i as int]));
            let ghost want = move_col_spec(t0, from as int, to as int).rows[i as int];
            assert(self@.rows[i as int].cells == want.cells);
            assert(self@.rows[i as int].height_px == want.height_px);
            i += 1;
        }
        let w = self.column_widths.remove(f);
        self.column_widths.insert(g, w);
        assert(self@.rows =~= move_col_spec(t0, from as int, to as int).rows);
        assert(self@.column_widths =~= move_col_spec(t0, from as int, to as int).column_widths);
    }
}


/// A row mapped by a function that leaves every cell as it is, is unchanged.
proof fn lemma_map_row_identity(row: RowView, f: spec_fn(int, CellView) -> CellView)
    requires
        forall|j: int| 0 <= j < row.cells.len() ==> f(j, row.cells[j]) == row.cells[j],
    ensures
        map_row(row, f) == row,
{
    assert(map_row(row, f).cells =~= row.cells);
}

/// Updates the cells of row `i` that a merge over `g` touches.
fn merge_row(row: &mut TableRow, i: usize, g: Rect, text: &String)
    requires
        g.min_c <= g.max_c < usize::MAX,
        g.min_r <= i <= g.max_r < usize::MAX,
    ensures
        final(row)@ == map_row(old(row)@, |j: int, c: CellView| merged_cell(g, text@, i as int, j, c)),
{
    let ghost r0 = row@;
    let end = if g.max_c + 1 < row.cells.len() {
        g.max_c + 1
    } else {
        row.cells.len()
    };
    let mut j: usize = g.min_c;
    while j < end
        invariant
            r0 == old(row)@,
            g.min_c <= g.max_c < usize::MAX,
            g.min_r <= i <= g.max_r < usize::MAX,
            end == min_int(g.max_c + 1, r0.cells.len() as int),
            g.min_c <= j,
            row@.height_px == r0.height_px,
            row@.cells.len() == r0.cells.len(),
            forall|k: int|
                0 <= k < r0.cells.len() ==> (#[trigger] row@.cells[k]) == if g.min_c <= k < j {
                    merged_cell(g, text@, i as int, k, r0.cells[k])
                } else {
                    r0.cells[k]
                },
        decreases end - j,
    {
        let ghost before = row@.cells;
        assert(before[j as int] == r0.cells[j as int]);
        set_merged(&mut row.cells[j], i == g.min_r && j == g.min_c, g, text);
        assert(row@.cells == before.update(j as int, row@.cells[j as int]));
        j += 1;
    }
    assert(row@.cells =~= map_row(r0, |j: int, c: CellView| merged_cell(g, text@, i as int, j, c)).cells);
}

/// Turns a cell of a merge into the master (with the joined text) or into a
/// placeholder.
fn set_merged(cell: &mut TableCell, master: bool, g: Rect, text: &String)
    requires
        g.min_c <= g.max_c < usize::MAX,
        g.min_r <= g.max_r < usize::MAX,
    ensures
        master ==> final(cell)@ == (CellView {
            text: text@,
            colspan: (g.max_c - g.min_c + 1) as u32,
            rowspan: (g.max_r - g.min_r + 1) as u32,
            placeholder: false,
            spans: if text@ == old(cell)@.text { old(cell)@.spans } else { None },
            ..old(cell)@
        }),
        !master ==> final(cell)@ == (CellView {
            text: Seq::empty(),
            colspan: 1,
            rowspan: 1,
            placeholder: true,
            spans: None,
            ..old(cell)@
        }),
{
    if master {
        let same = *text == cell.text;
        cell.text = text.clone();
        cell.colspan = #[verifier::truncate] ((g.max_c - g.min_c + 1) as u32);
        cell.rowspan = #[verifier::truncate] ((g.max_r - g.min_r + 1) as u32);
        cell.placeholder = false;
        if !same {
            cell.spans = None;
        }
    } else {
        cell.text = String::new();
        cell.colspan = 1;
        cell.rowspan = 1;
        cell.placeholder = true;
        cell.spans = None;
    }
}


/// Resets the cells of row `i` that a split over `g` covers.
fn split_row(row: &mut TableRow, i: usize, g: Rect)
    requires
        g.min_r <= i <= g.max_r,
        g.min_c <= g.max_c,
    ensures
        final(row)@ == map_row(old(row)@, |j: int, c: CellView| split_cell_at(g, i as int, j, c)),
{
    let ghost r0 = row@;
    let end = if g.max_c < row.cells.len() {
        g.max_c + 1
    } else {
        row.cells.len()
    };
    let mut j: usize = g.min_c;
    while j < end
        invariant
            r0 == old(row)@,
            g.min_r <= i <= g.max_r,
            g.min_c <= g.max_c,
            end == min_int(g.max_c + 1, r0.cells.len() as int),
            g.min_c <= j,
            row@.height_px == r0.height_px,
            row@.cells.len() == r0.cells.len(),
            forall|k: int|
                0 <= k < r0.cells.len() ==> (#[trigger] row@.cells[k]) == if g.min_c <= k < j {
                    split_cell_at(g, i as int, k, r0.cells[k])
                } else {
                    r0.cells[k]
                },
        decreases end - j,
    {
        let ghost before = row@.cells;
        assert(before[j as int] == r0.cells[j as int]);
        let cell = &mut row.cells[j];
        cell.colspan = 1;
        cell.rowspan = 1;
        cell.placeholder = false;
        assert(row@.cells == before.update(j as int, row@.cells[j as int]));
        j += 1;
    }
    assert(row@.cells =~= map_row(r0, |j: int, c: CellView| split_cell_at(g, i as int, j, c)).cells);
}

impl Table {
    /// Row-major join of the non-empty texts of the cells in `g`.
    fn merged_text(&self, g: Rect) -> (r: String)
        requires
            g.min_r <= g.max_r < self@.rows.len(),
            g.max_r < usize::MAX,
            g.min_c <= g.max_c < usize::MAX,
        ensures
            r@ == merge_text(self@, g),
    {
        let ghost t = self@;
        let mut acc = String::new();
        let mut i: usize = g.min_r;
        while i <= g.max_r
            invariant
                t == self@,
                g.min_r <= g.max_r < t.rows.len(),
                g.max_r < usize::MAX,
                g.min_c <= g.max_c < usize::MAX,
                g.min_r <= i <= g.max_r + 1,
                acc@ == join_nonempty(rect_texts(t, g, i as int)),
            decreases g.max_r + 1 - i,
        {
            let row = &self.rows[i];
            let end = if g.max_c + 1 < row.cells.len() {
                g.max_c + 1
            } else {
                row.cells.len()
            };
            let mut j: usize = g.min_c;
            let ghost head = rect_texts(t, g, i as int);
            while j < end
                invariant
                    t == self@,
                    g.min_r <= i <= g.max_r < t.rows.len(),
                    g.min_c <= g.max_c < usize::MAX,
                    head == rect_texts(t, g, i as int),
                    row@ == t.rows[i as int],
                    end == row_end(t.rows[i as int], g),
                    g.min_c <= j,
                    j <= end || j == g.min_c,
                    acc@ == join_nonempty(head + row_texts(t.rows[i as int], g.min_c as int, j as int)),
                decreases end - j,
            {
                let text = &row.cells[j].text;
                let ghost parts = head + row_texts(t.rows[i as int], g.min_c as int, j as int);
                let ghost next = head + row_texts(t.rows[i as int], g.min_c as int, j + 1);
                assert(next.drop_last() =~= parts);
                assert(next.last() == text@);
                if !text.as_str().is_empty() {
                    if !acc.as_str().is_empty() {
                        proof {
                            reveal_strlit(" ");
                        }
                        acc.append(" ");
                    }
                    acc.append(text.as_str());
                }
                assert(acc@ =~= join_step(join_nonempty(parts), text@));
                j += 1;
            }
            assert(head + row_texts(t.rows[i as int], g.min_c as int, j as int) =~= rect_texts(t, g, i + 1));
            i += 1;
        }
        acc
    }

    /// Merges the rectangle spanned by the two corners (in either order): its
    /// top-left cell becomes the master holding the joined texts and the
    /// rectangle's size, every other cell a cleared placeholder. Unchanged
    /// when a corner lies outside the table.
    pub fn merge_cells(&mut self, sr: usize, sc: usize, er: usize, ec: usize)
        ensures
            final(self)@ == merge_spec(old(self)@, sr, sc, er, ec),
    {
        if sr >= self.rows.len() || er >= self.rows.len() {
            return ;
        }
        let g = Rect {
            min_r: if sr <= er {
                sr
            } else {
                er
            },
            max_r: if sr >= er {
                sr
            } else {
                er
            },
            min_c: if sc <= ec {
                sc
            } else {
                ec
            },
            max_c: if sc >= ec {
                sc
            } else {
                ec
            },
        };
        assert(g == bounding(sr, sc, er, ec));
        if g.max_c >= self.rows[g.min_r].cells.len() {
            return ;
        }
        let ghost t0 = self@;
        let text = self.merged_text(g);
        let mut i: usize = g.min_r;
        while i <= g.max_r
            invariant
                t0 == old(self)@,
                g == bounding(sr, sc, er, ec),
                g.min_r <= g.max_r < t0.rows.len(),
                g.max_r < usize::MAX,
                g.min_c <= g.max_c < usize::MAX,
                text@ == merge_text(t0, g),
                g.min_r <= i <= g.max_r + 1,
                self.column_widths@ == t0.column_widths,
                self.freeze_header == t0.freeze_header,
                self.freeze_first_col == t0.freeze_first_col,
                self@.rows.len() == t0.rows.len(),
                forall|k: int|
                    0 <= k < t0.rows.len() ==> (#[trigger] self@.rows[k]) == if g.min_r <= k < i {
                        map_row(t0.rows[k], |j: int, c: CellView| merged_cell(g, text@, k, j, c))
                    } else {
                        t0.rows[k]
                    },
            decreases g.max_r + 1 - i,
        {
            let ghost before = self@.rows;
            assert(before[i as int] == t0.rows[i as int]);
            merge_row(&mut self.rows[i], i, g, &text);
            assert(self@.rows == before.update(i as int, self@.rows[i as int]));
            i += 1;
        }
        let ghost want = merge_spec(t0, sr, sc, er, ec);
        assert forall|k: int| 0 <= k < t0.rows.len() implies #[trigger] self@.rows[k] == want.rows[k] by {
            if !(g.min_r <= k <= g.max_r) {
                lemma_map_row_identity(t0.rows[k], |j: int, c: CellView| merged_cell(g, text@, k, j, c));
            }
            assert(self@.rows[k].cells =~= want.rows[k].cells);
        }
        assert(self@.rows =~= want.rows);
    }

    /// Splits the cell at `(r, c)`: it and every cell its spans covered go
    /// back to one by one and stop being placeholders. Texts stay as they are.
    pub fn split_cell(&mut self, r: usize, c: usize)
        ensures
            final(self)@ == split_spec(old(self)@, r as int, c as int),
    {
        if r >= self.rows.len() || c >= self.rows[r].cells.len() {
            return ;
        }
        let ghost t0 = self@;
        let rs: usize = if self.rows[r].cells[c].rowspan >= 1 {
            self.rows[r].cells[c].rowspan as usize
        } else {
            1
        };
        let cs: usize = if self.rows[r].cells[c].colspan >= 1 {
            self.rows[r].cells[c].colspan as usize
        } else {
            1
        };
        let g = Rect {
            min_r: r,
            max_r: if rs - 1 <= usize::MAX - r {
                r + (rs - 1)
            } else {
                usize::MAX
            },
            min_c: c,
            max_c: if cs - 1 <= usize::MAX - c {
                c + (cs - 1)
            } else {
                usize::MAX
            },
        };
        assert(g == split_area(t0, r as int, c as int));
        let end = if g.max_r < self.rows.len() {
            g.max_r + 1
        } else {
            self.rows.len()
        };
        let mut i: usize = r;
        while i < end
            invariant
                t0 == old(self)@,
                g == split_area(t0, r as int, c as int),
                has_cell(t0, r as int, c as int),
                end == min_int(g.max_r + 1, t0.rows.len() as int),
                r <= i,
                self.column_widths@ == t0.column_widths,
                self.freeze_header == t0.freeze_header,
                self.freeze_first_col == t0.freeze_first_col,
                self@.rows.len() == t0.rows.len(),
                forall|k: int|
                    0 <= k < t0.rows.len() ==> (#[trigger] self@.rows[k]) == if r <= k < i {
                        map_row(t0.rows[k], |j: int, x: CellView| split_cell_at(g, k, j, x))
                    } else {
                        t0.rows[k]
                    },
            decreases end - i,
        {
            let ghost before = self@.rows;
            assert(before[i as int] == t0.rows[i as int]);
            split_row(&mut self.rows[i], i, g);
            assert(self@.rows == before.update(i as int, self@.rows[i as int]));
            i += 1;
        }
        let ghost want = split_spec(t0, r as int, c as int);
        assert forall|k: int| 0 <= k < t0.rows.len() implies #[trigger] self@.rows[k] == want.rows[k] by {
            if !(r <= k < end) {
                lemma_map_row_identity(t0.rows[k], |j: int, x: CellView| split_cell_at(g, k, j, x));
            }
            assert(self@.rows[k].cells =~= want.rows[k].cells);
        }
        assert(self@.rows =~= want.rows);
    }
}


pub open spec fn with_style(c: CellView, incoming: crate::doc::CellStyleView) -> CellView {
    CellView { style: merged_cell_style(c.style, incoming), ..c }
}

pub open spec fn with_text(c: CellView, text: Seq<char>) -> CellView {
    CellView { text, ..c }
}

pub open spec fn with_styled_spans(c: CellView, start: int, end: int, delta: StyleView) -> CellView {
    CellView { spans: styled_text_spans(c.text, c.spans, start, end, delta), ..c }
}

/// Applies `f` to cell `(r, c)` of the table, whose row and cell exist.
proof fn lemma_update_cell_shape(t: TableView, t2: TableView, r: int, c: int, x: CellView)
    requires
        has_cell(t, r, c),
        t2.rows.len() == t.rows.len(),
        t2.column_widths == t.column_widths,
        t2.freeze_header == t.freeze_header,
        t2.freeze_first_col == t.freeze_first_col,
        forall|k: int| 0 <= k < t.rows.len() && k != r ==> #[trigger] t2.rows[k] == t.rows[k],
        t2.rows[r].height_px == t.rows[r].height_px,
        t2.rows[r].cells == t.rows[r].cells.update(c, x),
    ensures
        t2 == (TableView {
            rows: t.rows.update(r, RowView { cells: t.rows[r].cells.update(c, x), ..t.rows[r] }),
            ..t
        }),
{
    assert(t2.rows =~= t.rows.update(r, RowView { cells: t.rows[r].cells.update(c, x), ..t.rows[r] }));
}

impl Table {
    /// Merges `incoming` field by field into the style of cell `(r, c)`.
    pub fn set_cell_style(&mut self, r: usize, c: usize, incoming: &CellStyle)
        ensures
            final(self)@ == update_cell(old(self)@, r as int, c as int, |x: CellView| with_style(x, incoming@)),
    {
        if r >= self.rows.len() || c >= self.rows[r].cells.len() {
            return ;
        }
        let ghost t0 = self@;
        let ghost x = with_style(t0.rows[r as int].cells[c as int], incoming@);
        self.rows[r].cells[c].style.merge(incoming);
        proof {
            assert(self@.rows[r as int].cells[c as int] == x);
            assert(self@.rows[r as int].cells =~= t0.rows[r as int].cells.update(c as int, x));
            lemma_update_cell_shape(t0, self@, r as int, c as int, x);
        }
    }

    /// Replaces the text of cell `(r, c)`.
    pub fn set_cell_text(&mut self, r: usize, c: usize, text: &str)
        ensures
            final(self)@ == update_cell(old(self)@, r as int, c as int, |x: CellView| with_text(x, text@)),
    {
        if r >= self.rows.len() || c >= self.rows[r].cells.len() {
            return ;
        }
        let ghost t0 = self@;
        let ghost x = with_text(t0.rows[r as int].cells[c as int], text@);
        self.rows[r].cells[c].text = text.to_owned();
        proof {
            assert(self@.rows[r as int].cells[c as int] == x);
            assert(self@.rows[r as int].cells =~= t0.rows[r as int].cells.update(c as int, x));
            lemma_update_cell_shape(t0, self@, r as int, c as int, x);
        }
    }

    /// Applies `delta` to bytes `start..end` of the text of cell `(r, c)`.
    pub fn set_cell_text_style(&mut self, r: usize, c: usize, start: usize, end: usize, delta: &InlineStyle)
        ensures
            final(self)@ == update_cell(
                old(self)@,
                r as int,
                c as int,
                |x: CellView| with_styled_spans(x, start as int, end as int, delta@),
            ),
    {
        if r >= self.rows.len() || c >= self.rows[r].cells.len() {
            return ;
        }
        let ghost t0 = self@;
        let ghost x = with_styled_spans(t0.rows[r as int].cells[c as int], start as int, end as int, delta@);
        let spans = style_spans(&self.rows[r].cells[c].text, &self.rows[r].cells[c].spans, start, end, delta);
        self.rows[r].cells[c].spans = spans;
        proof {
            assert(self@.rows[r as int].cells[c as int] == x);
            assert(self@.rows[r as int].cells =~= t0.rows[r as int].cells.update(c as int, x));
            lemma_update_cell_shape(t0, self@, r as int, c as int, x);
        }
    }

    /// Sets the width of column `col` to `px`, at least the minimum width;
    /// the width list grows with default widths to reach `col`.
    pub fn set_column_width(&mut self, col: usize, px: u32)
        requires
            col < usize::MAX,
        ensures
            final(self)@ == set_column_width_spec(old(self)@, col as int, px),
    {
        let ghost w0 = self.column_widths@;
        while self.column_widths.len() <= col
            invariant
                col < usize::MAX,
                w0 == old(self).column_widths@,
                self.column_widths@.len() <= col + 1 || self.column_widths@ == w0,
                self.column_widths@ == w0 + Seq::new(
                    (self.column_widths@.len() - w0.len()) as nat,
                    |k: int| DEFAULT_COLUMN_WIDTH,
                ),
                self.column_widths@.len() >= w0.len(),
                self.rows@ == old(self).rows@,
                self.freeze_header == old(self).freeze_header,
                self.freeze_first_col == old(self).freeze_first_col,
            decreases col + 1 - self.column_widths@.len(),
        {
            self.column_widths.push(DEFAULT_COLUMN_WIDTH);
            assert(self.column_widths@ =~= w0 + Seq::new(
                (self.column_widths@.len() - w0.len()) as nat,
                |k: int| DEFAULT_COLUMN_WIDTH,
            ));
        }
        let w = if px >= MIN_COLUMN_WIDTH {
            px
        } else {
            MIN_COLUMN_WIDTH
        };
        self.column_widths.set(col, w);
        assert(self.column_widths@ =~= set_column_width_spec(old(self)@, col as int, px).column_widths);
    }

    /// Fixes the height of row `r` to `px`, at least the minimum height.
    pub fn set_row_height(&mut self, r: usize, px: u32)
        ensures
            final(self)@ == set_row_height_spec(old(self)@, r as int, px),
    {
        if r >= self.rows.len() {
            return ;
        }
        let ghost t0 = self@;
        self.rows[r].height_px = Some(
            if px >= MIN_ROW_HEIGHT {
                px
            } else {
                MIN_ROW_HEIGHT
            },
        );
        assert(self@.rows =~= set_row_height_spec(t0, r as int, px).rows);
    }

    /// Sets the freeze flags.
    pub fn set_freeze(&mut self, header: bool, first_col: bool)
        ensures
            final(self)@ == (TableView { freeze_header: header, freeze_first_col: first_col, ..old(self)@ }),
    {
        self.freeze_header = header;
        self.freeze_first_col = first_col;
    }
}


/// Merging a rectangle of cells that carry no spans, then splitting its
/// master cell, gives every cell of the rectangle back its colspan, rowspan
/// and placeholder flag (texts are not restored). The rectangle's sides must
/// fit the `u32` span fields.
pub proof fn lemma_merge_split_restores_layout(t: TableView, sr: usize, sc: usize, er: usize, ec: usize)
    requires
        merge_applies(t, sr, sc, er, ec),
        bounding(sr, sc, er, ec).max_c - bounding(sr, sc, er, ec).min_c + 1 <= u32::MAX,
        bounding(sr, sc, er, ec).max_r - bounding(sr, sc, er, ec).min_r + 1 <= u32::MAX,
        forall|i: int, j: int|
            bounding(sr, sc, er, ec).contains(i, j) && has_cell(t, i, j) ==> {
                &&& (#[trigger] t.rows[i].cells[j]).colspan == 1
                &&& t.rows[i].cells[j].rowspan == 1
                &&& !t.rows[i].cells[j].placeholder
            },
    ensures
        ({
            let g = bounding(sr, sc, er, ec);
            let t2 = split_spec(merge_spec(t, sr, sc, er, ec), g.min_r as int, g.min_c as int);
            &&& t2.rows.len() == t.rows.len()
            &&& forall|i: int, j: int|
                g.contains(i, j) && has_cell(t, i, j) ==> {
                    &&& has_cell(t2, i, j)
                    &&& (#[trigger] t2.rows[i].cells[j]).colspan == t.rows[i].cells[j].colspan
                    &&& t2.rows[i].cells[j].rowspan == t.rows[i].cells[j].rowspan
                    &&& t2.rows[i].cells[j].placeholder == t.rows[i].cells[j].placeholder
                }
        }),
{
    let g = bounding(sr, sc, er, ec);
    let t1 = merge_spec(t, sr, sc, er, ec);
    let r = g.min_r as int;
    let c = g.min_c as int;
    assert(t1.rows[r].cells[c].colspan == (g.max_c - g.min_c + 1) as u32);
    assert(t1.rows[r].cells[c].rowspan == (g.max_r - g.min_r + 1) as u32);
    assert(has_cell(t1, r, c));
    assert(split_area(t1, r, c) == g);
}

} // verus!
