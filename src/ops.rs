//! Commands/operations for editing a document, each preceded by a history
//! snapshot.
use vstd::prelude::*;

use crate::doc::{
    CellStyle, CellView, Doc, DocView, InfoBox, InlineStyle, MCQBlock, MCQOption, Node, NodeView,
    Table, TableRow, TableView, DEFAULT_COLUMN_WIDTH,
};
use crate::history::{recorded, History};
use crate::style_json::{cell_style_of_json, inline_style_of_json, parse_cell_style, parse_inline_style};
use crate::table::{
    add_col_spec, add_row_spec, delete_col_spec, delete_row_spec, merge_spec, move_col_spec,
    move_row_spec, set_column_width_spec, set_row_height_spec, split_spec, update_cell, with_style,
    default_row, new_row, styled_text_spans, style_spans, with_styled_spans, with_text,
};

verus! {

/// One structural or content edit of a single table, with the table's own
/// coordinates.
pub enum TableEdit {
    AddRow(u32),
    AddCol(u32),
    DeleteRow(u32),
    DeleteCol(u32),
    MoveRow(u32, u32),
    MoveCol(u32, u32),
    Merge(u32, u32, u32, u32),
    Split(u32, u32),
    CellStyle(u32, u32, CellStyle),
    CellText(u32, u32, String),
    CellTextStyle(u32, u32, usize, usize, InlineStyle),
    ColumnWidth(u32, u32),
    RowHeight(u32, u32),
    Freeze(bool, bool),
}

/// The table after an edit.
pub open spec fn edit_spec(t: TableView, e: TableEdit) -> TableView {
    match e {
        TableEdit::AddRow(at) => add_row_spec(t, at as int),
        TableEdit::AddCol(at) => add_col_spec(t, at as int),
        TableEdit::DeleteRow(at) => delete_row_spec(t, at as int),
        TableEdit::DeleteCol(at) => delete_col_spec(t, at as int),
        TableEdit::MoveRow(from, to) => move_row_spec(t, from as int, to as int),
        TableEdit::MoveCol(from, to) => move_col_spec(t, from as int, to as int),
        TableEdit::Merge(sr, sc, er, ec) => merge_spec(t, sr as usize, sc as usize, er as usize, ec as usize),
        TableEdit::Split(r, c) => split_spec(t, r as int, c as int),
        TableEdit::CellStyle(r, c, st) => update_cell(t, r as int, c as int, |x: CellView| with_style(x, st@)),
        TableEdit::CellText(r, c, s) => update_cell(t, r as int, c as int, |x: CellView| with_text(x, s@)),
        TableEdit::CellTextStyle(r, c, start, end, d) => update_cell(
            t,
            r as int,
            c as int,
            |x: CellView| with_styled_spans(x, start as int, end as int, d@),
        ),
        TableEdit::ColumnWidth(col, px) => if (col as int) < usize::MAX {
            set_column_width_spec(t, col as int, px)
        } else {
            t
        },
        TableEdit::RowHeight(r, px) => set_row_height_spec(t, r as int, px),
        TableEdit::Freeze(h, f) => TableView { freeze_header: h, freeze_first_col: f, ..t },
    }
}

/// Applies an edit to a table.
pub fn apply_edit(t: &mut Table, e: &TableEdit)
    ensures
        final(t)@ == edit_spec(old(t)@, *e),
{
    match e {
        TableEdit::AddRow(at) => t.add_row(*at as usize),
        TableEdit::AddCol(at) => t.add_col(*at as usize),
        TableEdit::DeleteRow(at) => t.delete_row(*at as usize),
        TableEdit::DeleteCol(at) => t.delete_col(*at as usize),
        TableEdit::MoveRow(from, to) => t.move_row(*from as usize, *to as usize),
        TableEdit::MoveCol(from, to) => t.move_col(*from as usize, *to as usize),
        TableEdit::Merge(sr, sc, er, ec) => t.merge_cells(*sr as usize, *sc as usize, *er as usize, *ec as usize),
        TableEdit::Split(r, c) => t.split_cell(*r as usize, *c as usize),
        TableEdit::CellStyle(r, c, st) => t.set_cell_style(*r as usize, *c as usize, st),
        TableEdit::CellText(r, c, s) => t.set_cell_text(*r as usize, *c as usize, s.as_str()),
        TableEdit::CellTextStyle(r, c, start, end, d) => t.set_cell_text_style(*r as usize, *c as usize, *start, *end, d),
        TableEdit::ColumnWidth(col, px) => {
            if (*col as usize) < usize::MAX {
                t.set_column_width(*col as usize, *px);
            }
        },
        TableEdit::RowHeight(r, px) => t.set_row_height(*r as usize, *px),
        TableEdit::Freeze(h, f) => t.set_freeze(*h, *f),
    }
}

// ---------------------------------------------------------------- addressing tables

/// The index of the first table node at or after `k`; the node count when
/// there is none.
pub open spec fn first_table_from(nodes: Seq<NodeView>, k: int) -> int
    decreases nodes.len() - k,
{
    if k >= nodes.len() || k < 0 {
        nodes.len() as int
    } else if nodes[k] is Table {
        k
    } else {
        first_table_from(nodes, k + 1)
    }
}

/// The index of the first table node of the document; the node count when
/// there is none.
pub open spec fn first_table(d: DocView) -> int {
    first_table_from(d.nodes, 0)
}

pub open spec fn has_table_spec(d: DocView) -> bool {
    first_table(d) < d.nodes.len()
}

/// The document with the table at node `idx` replaced by `f` of it;
/// unchanged when that node is not a table.
pub open spec fn on_table_at(d: DocView, idx: int, f: spec_fn(TableView) -> TableView) -> DocView {
    if 0 <= idx < d.nodes.len() {
        match d.nodes[idx] {
            NodeView::Table(t) => DocView { nodes: d.nodes.update(idx, NodeView::Table(f(t))), ..d },
            _ => d,
        }
    } else {
        d
    }
}

/// The document after `e` is applied to the table at node `idx`.
pub open spec fn edit_at_spec(d: DocView, idx: int, e: TableEdit) -> DocView {
    on_table_at(d, idx, |t: TableView| edit_spec(t, e))
}

/// The document after `e` is applied to its first table, if any.
pub open spec fn edit_first_spec(d: DocView, e: TableEdit) -> DocView {
    edit_at_spec(d, first_table(d), e)
}

proof fn lemma_first_table_from(nodes: Seq<NodeView>, k: int)
    requires
        0 <= k <= nodes.len(),
    ensures
        k <= first_table_from(nodes, k) <= nodes.len(),
        first_table_from(nodes, k) < nodes.len() ==> nodes[first_table_from(nodes, k)] is Table,
    decreases nodes.len() - k,
{
    if k < nodes.len() && !(nodes[k] is Table) {
        lemma_first_table_from(nodes, k + 1);
    }
}

/// The index of the first table node, if any.
pub fn first_table_indices(doc: &Doc) -> (r: Option<usize>)
    ensures
        match r {
            Some(i) => has_table_spec(doc@) && i as int == first_table(doc@),
            None => !has_table_spec(doc@),
        },
{
    let mut k: usize = 0;
    while k < doc.nodes.len()
        invariant
            k <= doc@.nodes.len(),
            first_table_from(doc@.nodes, k as int) == first_table(doc@),
        decreases doc@.nodes.len() - k,
    {
        if let Node::Table(_) = &doc.nodes[k] {
            proof {
                lemma_first_table_from(doc@.nodes, 0);
            }
            return Some(k);
        }
        k += 1;
    }
    proof {
        lemma_first_table_from(doc@.nodes, 0);
    }
    None
}

/// Whether the document holds a table.
pub fn has_table(doc: &Doc) -> (r: bool)
    ensures
        r == has_table_spec(doc@),
{
    first_table_indices(doc).is_some()
}

/// Applies `e` to the table at node `idx`, if that node is a table.
pub fn edit_table_at(doc: &mut Doc, idx: usize, e: &TableEdit)
    ensures
        final(doc)@ == edit_at_spec(old(doc)@, idx as int, *e),
{
    if idx >= doc.nodes.len() {
        return ;
    }
    let ghost d0 = doc@;
    match &mut doc.nodes[idx] {
        Node::Table(t) => {
            apply_edit(t, e);
        },
        _ => {},
    }
    assert(doc@.nodes =~= edit_at_spec(d0, idx as int, *e).nodes);
}

/// Applies `e` to the first table of the document, if any.
pub fn edit_first_table(doc: &mut Doc, e: &TableEdit)
    ensures
        final(doc)@ == edit_first_spec(old(doc)@, *e),
{
    proof {
        lemma_first_table_from(doc@.nodes, 0);
    }
    match first_table_indices(doc) {
        Some(i) => edit_table_at(doc, i, e),
        None => {},
    }
}


// ---------------------------------------------------------------- nodes

/// A fresh table of `rows` rows of `cols` default cells, every column of the
/// default width.
pub open spec fn new_table_spec(rows: u32, cols: u32) -> TableView {
    TableView {
        rows: Seq::new(rows as nat, |i: int| default_row(cols as int)),
        freeze_header: false,
        freeze_first_col: false,
        column_widths: Seq::new(cols as nat, |j: int| DEFAULT_COLUMN_WIDTH),
    }
}

/// Where a node inserted after `after_index` goes: right after it, or at the
/// end.
pub open spec fn after_pos(d: DocView, after_index: int) -> int {
    if after_index < d.nodes.len() {
        after_index + 1
    } else {
        d.nodes.len() as int
    }
}

pub open spec fn pushed(d: DocView, n: NodeView) -> DocView {
    DocView { nodes: d.nodes.push(n), ..d }
}

pub open spec fn inserted(d: DocView, at: int, n: NodeView) -> DocView {
    DocView { nodes: d.nodes.insert(at, n), ..d }
}

/// The multiple-choice block a new one starts as.
pub open spec fn new_mcq_spec(multiple: bool) -> crate::doc::MCQView {
    crate::doc::MCQView {
        question: "New question"@,
        options: seq![
            crate::doc::OptionView { text: "Option A"@, correct: false },
            crate::doc::OptionView { text: "Option B"@, correct: false },
            crate::doc::OptionView { text: "Option C"@, correct: false },
            crate::doc::OptionView { text: "Option D"@, correct: false },
        ],
        multiple,
    }
}

pub open spec fn set_paragraph_text_spec(d: DocView, index: int, text: Seq<char>) -> DocView {
    if 0 <= index < d.nodes.len() && d.nodes[index] is Paragraph {
        DocView { nodes: d.nodes.update(index, NodeView::Paragraph { text, spans: None }), ..d }
    } else {
        d
    }
}

pub open spec fn set_text_style_spec(d: DocView, index: int, start: int, end: int, delta: crate::doc::StyleView) -> DocView {
    if 0 <= index < d.nodes.len() {
        match d.nodes[index] {
            NodeView::Paragraph { text, spans } => DocView {
                nodes: d.nodes.update(
                    index,
                    NodeView::Paragraph { text, spans: styled_text_spans(text, spans, start, end, delta) },
                ),
                ..d
            },
            NodeView::Heading { level, text, spans } => DocView {
                nodes: d.nodes.update(
                    index,
                    NodeView::Heading { level, text, spans: styled_text_spans(text, spans, start, end, delta) },
                ),
                ..d
            },
            _ => d,
        }
    } else {
        d
    }
}

pub open spec fn update_mcq_spec(
    d: DocView,
    index: int,
    question: Option<Seq<char>>,
    options: Option<Seq<crate::doc::OptionView>>,
    multiple: Option<bool>,
) -> DocView {
    if 0 <= index < d.nodes.len() {
        match d.nodes[index] {
            NodeView::MCQBlock(b) => DocView {
                nodes: d.nodes.update(
                    index,
                    NodeView::MCQBlock(
                        crate::doc::MCQView {
                            question: match question {
                                Some(q) => q,
                                None => b.question,
                            },
                            options: match options {
                                Some(o) => o,
                                None => b.options,
                            },
                            multiple: match multiple {
                                Some(m) => m,
                                None => b.multiple,
                            },
                        },
                    ),
                ),
                ..d
            },
            _ => d,
        }
    } else {
        d
    }
}

pub open spec fn update_infobox_spec(d: DocView, index: int, kind: Option<Seq<char>>, text: Option<Seq<char>>) -> DocView {
    if 0 <= index < d.nodes.len() {
        match d.nodes[index] {
            NodeView::InfoBox(b) => DocView {
                nodes: d.nodes.update(
                    index,
                    NodeView::InfoBox(
                        crate::doc::InfoBoxView {
                            kind: match kind {
                                Some(k) => k,
                                None => b.kind,
                            },
                            text: match text {
                                Some(t) => t,
                                None => b.text,
                            },
                        },
                    ),
                ),
                ..d
            },
            _ => d,
        }
    } else {
        d
    }
}

pub open spec fn delete_node_spec(d: DocView, at: int) -> DocView {
    if 0 <= at < d.nodes.len() {
        DocView { nodes: d.nodes.remove(at), ..d }
    } else {
        d
    }
}

/// A fresh table of `rows` by `cols` default cells.
pub fn new_table(rows: u32, cols: u32) -> (t: Table)
    ensures
        t@ == new_table_spec(rows, cols),
{
    let mut rv: Vec<TableRow> = Vec::new();
    let mut i: u32 = 0;
    while i < rows
        invariant
            i <= rows,
            rv@.len() == i,
            forall|k: int| 0 <= k < i ==> (#[trigger] rv@[k])@ == default_row(cols as int),
        decreases rows - i,
    {
        rv.push(new_row(cols as usize));
        i += 1;
    }
    let mut widths: Vec<u32> = Vec::new();
    let mut j: u32 = 0;
    while j < cols
        invariant
            j <= cols,
            widths@ == Seq::new(j as nat, |k: int| DEFAULT_COLUMN_WIDTH),
        decreases cols - j,
    {
        widths.push(DEFAULT_COLUMN_WIDTH);
        j += 1;
        assert(widths@ =~= Seq::new(j as nat, |k: int| DEFAULT_COLUMN_WIDTH));
    }
    let t = Table { rows: rv, freeze_header: false, freeze_first_col: false, column_widths: widths };
    assert(t@.rows =~= new_table_spec(rows, cols).rows);
    t
}

fn push_node(doc: &mut Doc, n: Node)
    ensures
        final(doc)@ == pushed(old(doc)@, n@),
{
    doc.nodes.push(n);
    assert(doc@.nodes =~= old(doc)@.nodes.push(n@));
}

fn insert_node_after(doc: &mut Doc, after_index: usize, n: Node)
    ensures
        final(doc)@ == inserted(old(doc)@, after_pos(old(doc)@, after_index as int), n@),
{
    let at = if after_index < doc.nodes.len() {
        after_index + 1
    } else {
        doc.nodes.len()
    };
    doc.nodes.insert(at, n);
    assert(doc@.nodes =~= old(doc)@.nodes.insert(at as int, n@));
}


// ---------------------------------------------------------------- table operations

pub fn insert_table(doc: &mut Doc, rows: u32, cols: u32, history: &mut History)
    ensures
        final(history)@ == recorded(old(history)@, old(doc)@),
        final(doc)@ == pushed(old(doc)@, NodeView::Table(new_table_spec(rows, cols))),
{
    history.record_before_change(doc);
    push_node(doc, Node::Table(new_table(rows, cols)));
}

/// Insert a new table after the given index (i.e., at position index+1).
pub fn insert_table_at(doc: &mut Doc, after_index: usize, rows: u32, cols: u32, history: &mut History)
    ensures
        final(history)@ == recorded(old(history)@, old(doc)@),
        final(doc)@ == inserted(
            old(doc)@,
            after_pos(old(doc)@, after_index as int),
            NodeView::Table(new_table_spec(rows, cols)),
        ),
{
    history.record_before_change(doc);
    insert_node_after(doc, after_index, Node::Table(new_table(rows, cols)));
}

/// Snapshots the document, then applies `e` to its first table, if any.
pub fn edit_first_recorded(doc: &mut Doc, e: &TableEdit, history: &mut History)
    ensures
        final(history)@ == recorded(old(history)@, old(doc)@),
        final(doc)@ == edit_first_spec(old(doc)@, *e),
{
    history.record_before_change(doc);
    edit_first_table(doc, e);
}

/// Snapshots the document, then applies `e` to the table at node `idx`.
pub fn edit_at_recorded(doc: &mut Doc, idx: usize, e: &TableEdit, history: &mut History)
    ensures
        final(history)@ == recorded(old(history)@, old(doc)@),
        final(doc)@ == edit_at_spec(old(doc)@, idx as int, *e),
{
    history.record_before_change(doc);
    edit_table_at(doc, idx, e);
}

pub fn add_row(doc: &mut Doc, at: u32, history: &mut History)
    ensures
        final(history)@ == recorded(old(history)@, old(doc)@),
        final(doc)@ == edit_first_spec(old(doc)@, TableEdit::AddRow(at)),
{
    edit_first_recorded(doc, &TableEdit::AddRow(at), history);
}

pub fn add_col(doc: &mut Doc, at: u32, history: &mut History)
    ensures
        final(history)@ == recorded(old(history)@, old(doc)@),
        final(doc)@ == edit_first_spec(old(doc)@, TableEdit::AddCol(at)),
{
    edit_first_recorded(doc, &TableEdit::AddCol(at), history);
}

pub fn delete_row(doc: &mut Doc, at: u32, history: &mut History)
    ensures
        final(history)@ == recorded(old(history)@, old(doc)@),
        final(doc)@ == edit_first_spec(old(doc)@, TableEdit::DeleteRow(at)),
{
    edit_first_recorded(doc, &TableEdit::DeleteRow(at), history);
}

pub fn delete_col(doc: &mut Doc, at: u32, history: &mut History)
    ensures
        final(history)@ == recorded(old(history)@, old(doc)@),
        final(doc)@ == edit_first_spec(old(doc)@, TableEdit::DeleteCol(at)),
{
    edit_first_recorded(doc, &TableEdit::DeleteCol(at), history);
}

pub fn move_row(doc: &mut Doc, from: u32, to: u32, history: &mut History)
    ensures
        final(history)@ == recorded(old(history)@, old(doc)@),
        final(doc)@ == edit_first_spec(old(doc)@, TableEdit::MoveRow(from, to)),
{
    edit_first_recorded(doc, &TableEdit::MoveRow(from, to), history);
}

pub fn move_col(doc: &mut Doc, from: u32, to: u32, history: &mut History)
    ensures
        final(history)@ == recorded(old(history)@, old(doc)@),
        final(doc)@ == edit_first_spec(old(doc)@, TableEdit::MoveCol(from, to)),
{
    edit_first_recorded(doc, &TableEdit::MoveCol(from, to), history);
}

pub fn merge_cells(doc: &mut Doc, sr: u32, sc: u32, er: u32, ec: u32, history: &mut History)
    ensures
        final(history)@ == recorded(old(history)@, old(doc)@),
        final(doc)@ == edit_first_spec(old(doc)@, TableEdit::Merge(sr, sc, er, ec)),
{
    edit_first_recorded(doc, &TableEdit::Merge(sr, sc, er, ec), history);
}

pub fn split_cell(doc: &mut Doc, r: u32, c: u32, history: &mut History)
    ensures
        final(history)@ == recorded(old(history)@, old(doc)@),
        final(doc)@ == edit_first_spec(old(doc)@, TableEdit::Split(r, c)),
{
    edit_first_recorded(doc, &TableEdit::Split(r, c), history);
}

/// Merges the style described by the JSON payload into cell `(r, c)` of the
/// first table.
pub fn set_cell_style(doc: &mut Doc, r: u32, c: u32, style_json: &str, history: &mut History)
    ensures
        final(history)@ == recorded(old(history)@, old(doc)@),
        final(doc)@ == on_table_at(
            old(doc)@,
            first_table(old(doc)@),
            |t: TableView| update_cell(t, r as int, c as int, |x: CellView| with_style(x, cell_style_of_json(style_json@))),
        ),
{
    let st = parse_cell_style(style_json);
    edit_first_recorded(doc, &TableEdit::CellStyle(r, c, st), history);
}

/// Applies the inline style described by the JSON payload to bytes
/// `start..end` of the text of the paragraph or heading at `index`. Offsets
/// count UTF-8 bytes; a range that would cut a character leaves the spans as
/// they are.
pub fn set_text_style(doc: &mut Doc, index: usize, start: usize, end: usize, style_json: &str, history: &mut History)
    ensures
        final(history)@ == recorded(old(history)@, old(doc)@),
        final(doc)@ == set_text_style_spec(old(doc)@, index as int, start as int, end as int, inline_style_of_json(style_json@)),
{
    let delta = parse_inline_style(style_json);
    history.record_before_change(doc);
    style_node_text(doc, index, start, end, &delta);
}

/// Applies `delta` to bytes `start..end` of the paragraph or heading at
/// `index`.
pub fn style_node_text(doc: &mut Doc, index: usize, start: usize, end: usize, delta: &InlineStyle)
    ensures
        final(doc)@ == set_text_style_spec(old(doc)@, index as int, start as int, end as int, delta@),
{
    if index >= doc.nodes.len() {
        return ;
    }
    let ghost d0 = doc@;
    match &mut doc.nodes[index] {
        Node::Paragraph { text, spans } => {
            let sp = style_spans(text, spans, start, end, delta);
            *spans = sp;
        },
        Node::Heading { level, text, spans } => {
            let sp = style_spans(text, spans, start, end, delta);
            *spans = sp;
        },
        _ => {},
    }
    assert(doc@.nodes =~= set_text_style_spec(d0, index as int, start as int, end as int, delta@).nodes);
}

/// Applies the inline style described by the JSON payload to bytes
/// `start..end` of the text of cell `(r, c)` of the first table.
pub fn set_cell_text_style(doc: &mut Doc, r: u32, c: u32, start: usize, end: usize, style_json: &str, history: &mut History)
    ensures
        final(history)@ == recorded(old(history)@, old(doc)@),
        final(doc)@ == on_table_at(
            old(doc)@,
            first_table(old(doc)@),
            |t: TableView|
                update_cell(
                    t,
                    r as int,
                    c as int,
                    |x: CellView| with_styled_spans(x, start as int, end as int, inline_style_of_json(style_json@)),
                ),
        ),
{
    let delta = parse_inline_style(style_json);
    edit_first_recorded(doc, &TableEdit::CellTextStyle(r, c, start, end, delta), history);
}

/// Set row height in pixels (minimum 12)
pub fn set_row_height(doc: &mut Doc, r: u32, px: u32, history: &mut History)
    ensures
        final(history)@ == recorded(old(history)@, old(doc)@),
        final(doc)@ == edit_first_spec(old(doc)@, TableEdit::RowHeight(r, px)),
{
    edit_first_recorded(doc, &TableEdit::RowHeight(r, px), history);
}

pub fn set_column_width(doc: &mut Doc, col: u32, px: u32, history: &mut History)
    ensures
        final(history)@ == recorded(old(history)@, old(doc)@),
        final(doc)@ == edit_first_spec(old(doc)@, TableEdit::ColumnWidth(col, px)),
{
    edit_first_recorded(doc, &TableEdit::ColumnWidth(col, px), history);
}

pub fn set_freeze(doc: &mut Doc, header: bool, first_col: bool, history: &mut History)
    ensures
        final(history)@ == recorded(old(history)@, old(doc)@),
        final(doc)@ == edit_first_spec(old(doc)@, TableEdit::Freeze(header, first_col)),
{
    edit_first_recorded(doc, &TableEdit::Freeze(header, first_col), history);
}

// ---- Indexed variants (operate on a specific table node index) ----

pub fn set_cell_text_at(doc: &mut Doc, table_node_index: usize, r: u32, c: u32, text: &str, history: &mut History)
    ensures
        final(history)@ == recorded(old(history)@, old(doc)@),
        final(doc)@ == on_table_at(
            old(doc)@,
            table_node_index as int,
            |t: TableView| update_cell(t, r as int, c as int, |x: CellView| with_text(x, text@)),
        ),
{
    edit_at_recorded(doc, table_node_index, &TableEdit::CellText(r, c, text.to_owned()), history);
}

pub fn set_cell_style_at(doc: &mut Doc, table_node_index: usize, r: u32, c: u32, style_json: &str, history: &mut History)
    ensures
        final(history)@ == recorded(old(history)@, old(doc)@),
        final(doc)@ == on_table_at(
            old(doc)@,
            table_node_index as int,
            |t: TableView| update_cell(t, r as int, c as int, |x: CellView| with_style(x, cell_style_of_json(style_json@))),
        ),
{
    let st = parse_cell_style(style_json);
    edit_at_recorded(doc, table_node_index, &TableEdit::CellStyle(r, c, st), history);
}

pub fn set_cell_text_style_at(
    doc: &mut Doc,
    table_node_index: usize,
    r: u32,
    c: u32,
    start: usize,
    end: usize,
    style_json: &str,
    history: &mut History,
)
    ensures
        final(history)@ == recorded(old(history)@, old(doc)@),
        final(doc)@ == on_table_at(
            old(doc)@,
            table_node_index as int,
            |t: TableView|
                update_cell(
                    t,
                    r as int,
                    c as int,
                    |x: CellView| with_styled_spans(x, start as int, end as int, inline_style_of_json(style_json@)),
                ),
        ),
{
    let delta = parse_inline_style(style_json);
    edit_at_recorded(doc, table_node_index, &TableEdit::CellTextStyle(r, c, start, end, delta), history);
}

pub fn set_column_width_at(doc: &mut Doc, table_node_index: usize, col: u32, px: u32, history: &mut History)
    ensures
        final(history)@ == recorded(old(history)@, old(doc)@),
        final(doc)@ == edit_at_spec(old(doc)@, table_node_index as int, TableEdit::ColumnWidth(col, px)),
{
    edit_at_recorded(doc, table_node_index, &TableEdit::ColumnWidth(col, px), history);
}

pub fn set_freeze_at(doc: &mut Doc, table_node_index: usize, header: bool, first_col: bool, history: &mut History)
    ensures
        final(history)@ == recorded(old(history)@, old(doc)@),
        final(doc)@ == edit_at_spec(old(doc)@, table_node_index as int, TableEdit::Freeze(header, first_col)),
{
    edit_at_recorded(doc, table_node_index, &TableEdit::Freeze(header, first_col), history);
}

pub fn add_row_at(doc: &mut Doc, table_node_index: usize, at: u32, history: &mut History)
    ensures
        final(history)@ == recorded(old(history)@, old(doc)@),
        final(doc)@ == edit_at_spec(old(doc)@, table_node_index as int, TableEdit::AddRow(at)),
{
    edit_at_recorded(doc, table_node_index, &TableEdit::AddRow(at), history);
}

pub fn add_col_at(doc: &mut Doc, table_node_index: usize, at: u32, history: &mut History)
    ensures
        final(history)@ == recorded(old(history)@, old(doc)@),
        final(doc)@ == edit_at_spec(old(doc)@, table_node_index as int, TableEdit::AddCol(at)),
{
    edit_at_recorded(doc, table_node_index, &TableEdit::AddCol(at), history);
}

pub fn delete_row_at(doc: &mut Doc, table_node_index: usize, at: u32, history: &mut History)
    ensures
        final(history)@ == recorded(old(history)@, old(doc)@),
        final(doc)@ == edit_at_spec(old(doc)@, table_node_index as int, TableEdit::DeleteRow(at)),
{
    edit_at_recorded(doc, table_node_index, &TableEdit::DeleteRow(at), history);
}

pub fn delete_col_at(doc: &mut Doc, table_node_index: usize, at: u32, history: &mut History)
    ensures
        final(history)@ == recorded(old(history)@, old(doc)@),
        final(doc)@ == edit_at_spec(old(doc)@, table_node_index as int, TableEdit::DeleteCol(at)),
{
    edit_at_recorded(doc, table_node_index, &TableEdit::DeleteCol(at), history);
}

pub fn merge_cells_at(doc: &mut Doc, table_node_index: usize, sr: u32, sc: u32, er: u32, ec: u32, history: &mut History)
    ensures
        final(history)@ == recorded(old(history)@, old(doc)@),
        final(doc)@ == edit_at_spec(old(doc)@, table_node_index as int, TableEdit::Merge(sr, sc, er, ec)),
{
    edit_at_recorded(doc, table_node_index, &TableEdit::Merge(sr, sc, er, ec), history);
}

pub fn split_cell_at(doc: &mut Doc, table_node_index: usize, r: u32, c: u32, history: &mut History)
    ensures
        final(history)@ == recorded(old(history)@, old(doc)@),
        final(doc)@ == edit_at_spec(old(doc)@, table_node_index as int, TableEdit::Split(r, c)),
{
    edit_at_recorded(doc, table_node_index, &TableEdit::Split(r, c), history);
}

pub fn set_row_height_at(doc: &mut Doc, table_node_index: usize, r: u32, px: u32, history: &mut History)
    ensures
        final(history)@ == recorded(old(history)@, old(doc)@),
        final(doc)@ == edit_at_spec(old(doc)@, table_node_index as int, TableEdit::RowHeight(r, px)),
{
    edit_at_recorded(doc, table_node_index, &TableEdit::RowHeight(r, px), history);
}


// ---------------------------------------------------------------- blocks

/// A fresh multiple-choice block with four unmarked options.
pub fn new_mcq(multiple: bool) -> (b: MCQBlock)
    ensures
        b@ == new_mcq_spec(multiple),
{
    let mut options: Vec<MCQOption> = Vec::new();
    options.push(MCQOption { text: "Option A".to_owned(), correct: false });
    options.push(MCQOption { text: "Option B".to_owned(), correct: false });
    options.push(MCQOption { text: "Option C".to_owned(), correct: false });
    options.push(MCQOption { text: "Option D".to_owned(), correct: false });
    let b = MCQBlock { question: "New question".to_owned(), options, multiple };
    assert(b@.options =~= new_mcq_spec(multiple).options);
    b
}

pub fn insert_mcq(doc: &mut Doc, multiple: bool, history: &mut History)
    ensures
        final(history)@ == recorded(old(history)@, old(doc)@),
        final(doc)@ == pushed(old(doc)@, NodeView::MCQBlock(new_mcq_spec(multiple))),
{
    history.record_before_change(doc);
    push_node(doc, Node::MCQBlock(new_mcq(multiple)));
}

pub fn insert_formula_inline(doc: &mut Doc, tex: &str, history: &mut History)
    ensures
        final(history)@ == recorded(old(history)@, old(doc)@),
        final(doc)@ == pushed(old(doc)@, NodeView::FormulaInline { tex: tex@ }),
{
    history.record_before_change(doc);
    push_node(doc, Node::FormulaInline { tex: tex.to_owned() });
}

pub fn insert_formula_block(doc: &mut Doc, tex: &str, history: &mut History)
    ensures
        final(history)@ == recorded(old(history)@, old(doc)@),
        final(doc)@ == pushed(old(doc)@, NodeView::FormulaBlock { tex: tex@ }),
{
    history.record_before_change(doc);
    push_node(doc, Node::FormulaBlock { tex: tex.to_owned() });
}

/// Replaces the text of the paragraph at `index`; its stored spans no longer
/// describe the new text and are dropped. No change when that node is not a
/// paragraph.
pub fn set_paragraph_text(doc: &mut Doc, index: usize, text: &str, history: &mut History)
    ensures
        final(history)@ == recorded(old(history)@, old(doc)@),
        final(doc)@ == set_paragraph_text_spec(old(doc)@, index as int, text@),
{
    history.record_before_change(doc);
    if index >= doc.nodes.len() {
        return ;
    }
    let ghost d0 = doc@;
    match &mut doc.nodes[index] {
        Node::Paragraph { text: t, spans } => {
            *t = text.to_owned();
            *spans = None;
        },
        _ => {},
    }
    assert(doc@.nodes =~= set_paragraph_text_spec(d0, index as int, text@).nodes);
}

pub fn insert_formula_inline_at(doc: &mut Doc, after_index: usize, tex: &str, history: &mut History)
    ensures
        final(history)@ == recorded(old(history)@, old(doc)@),
        final(doc)@ == inserted(old(doc)@, after_pos(old(doc)@, after_index as int), NodeView::FormulaInline { tex: tex@ }),
{
    history.record_before_change(doc);
    insert_node_after(doc, after_index, Node::FormulaInline { tex: tex.to_owned() });
}

pub fn insert_formula_block_at(doc: &mut Doc, after_index: usize, tex: &str, history: &mut History)
    ensures
        final(history)@ == recorded(old(history)@, old(doc)@),
        final(doc)@ == inserted(old(doc)@, after_pos(old(doc)@, after_index as int), NodeView::FormulaBlock { tex: tex@ }),
{
    history.record_before_change(doc);
    insert_node_after(doc, after_index, Node::FormulaBlock { tex: tex.to_owned() });
}

pub fn insert_image_at(doc: &mut Doc, after_index: usize, src: &str, alt: &str, history: &mut History)
    ensures
        final(history)@ == recorded(old(history)@, old(doc)@),
        final(doc)@ == inserted(
            old(doc)@,
            after_pos(old(doc)@, after_index as int),
            NodeView::Image { src: src@, alt: alt@ },
        ),
{
    history.record_before_change(doc);
    insert_node_after(doc, after_index, Node::Image { src: src.to_owned(), alt: alt.to_owned() });
}

/// Inserts a plain paragraph at `at`, clamped to the node count.
pub fn insert_paragraph(doc: &mut Doc, at: u32, text: &str, history: &mut History)
    ensures
        final(history)@ == recorded(old(history)@, old(doc)@),
        final(doc)@ == inserted(
            old(doc)@,
            if (at as int) < old(doc)@.nodes.len() { at as int } else { old(doc)@.nodes.len() as int },
            NodeView::Paragraph { text: text@, spans: None },
        ),
{
    history.record_before_change(doc);
    let idx = if (at as usize) < doc.nodes.len() {
        at as usize
    } else {
        doc.nodes.len()
    };
    let n = Node::Paragraph { text: text.to_owned(), spans: None };
    doc.nodes.insert(idx, n);
    assert(doc@.nodes =~= old(doc)@.nodes.insert(idx as int, n@));
}

pub fn update_mcq(
    doc: &mut Doc,
    index: usize,
    question: Option<String>,
    options: Option<Vec<MCQOption>>,
    multiple: Option<bool>,
    history: &mut History,
)
    ensures
        final(history)@ == recorded(old(history)@, old(doc)@),
        final(doc)@ == update_mcq_spec(
            old(doc)@,
            index as int,
            crate::doc::opt_str(question),
            crate::doc::opt_views(options),
            multiple,
        ),
{
    history.record_before_change(doc);
    if index >= doc.nodes.len() {
        return ;
    }
    let ghost d0 = doc@;
    match &mut doc.nodes[index] {
        Node::MCQBlock(b) => {
            match question {
                Some(q) => {
                    b.question = q;
                },
                None => {},
            }
            match options {
                Some(o) => {
                    b.options = o;
                },
                None => {},
            }
            match multiple {
                Some(m) => {
                    b.multiple = m;
                },
                None => {},
            }
        },
        _ => {},
    }
    assert(doc@.nodes =~= update_mcq_spec(
        d0,
        index as int,
        crate::doc::opt_str(question),
        crate::doc::opt_views(options),
        multiple,
    ).nodes);
}

pub fn insert_infobox(doc: &mut Doc, kind: &str, text: &str, history: &mut History)
    ensures
        final(history)@ == recorded(old(history)@, old(doc)@),
        final(doc)@ == pushed(old(doc)@, NodeView::InfoBox(crate::doc::InfoBoxView { kind: kind@, text: text@ })),
{
    history.record_before_change(doc);
    push_node(doc, Node::InfoBox(InfoBox { kind: kind.to_owned(), text: text.to_owned() }));
}

pub fn update_infobox(doc: &mut Doc, index: usize, kind: Option<String>, text: Option<String>, history: &mut History)
    ensures
        final(history)@ == recorded(old(history)@, old(doc)@),
        final(doc)@ == update_infobox_spec(old(doc)@, index as int, crate::doc::opt_str(kind), crate::doc::opt_str(text)),
{
    history.record_before_change(doc);
    if index >= doc.nodes.len() {
        return ;
    }
    let ghost d0 = doc@;
    match &mut doc.nodes[index] {
        Node::InfoBox(b) => {
            match kind {
                Some(k) => {
                    b.kind = k;
                },
                None => {},
            }
            match text {
                Some(t) => {
                    b.text = t;
                },
                None => {},
            }
        },
        _ => {},
    }
    assert(doc@.nodes =~= update_infobox_spec(d0, index as int, crate::doc::opt_str(kind), crate::doc::opt_str(text)).nodes);
}

/// Delete the node at the provided index if it exists.
/// This is used by the UI to remove images, tables, formulas, etc.
pub fn delete_node(doc: &mut Doc, at: usize, history: &mut History)
    ensures
        final(history)@ == recorded(old(history)@, old(doc)@),
        final(doc)@ == delete_node_spec(old(doc)@, at as int),
{
    history.record_before_change(doc);
    if at < doc.nodes.len() {
        doc.nodes.remove(at);
        assert(doc@.nodes =~= old(doc)@.nodes.remove(at as int));
    }
}

/// Editing state carried between operations: the history.
#[derive(Debug, Default)]
pub struct OpsContext {
    pub history: History,
}

impl OpsContext {
    pub fn new() -> (r: Self)
        ensures
            r.history@.undo.len() == 0,
            r.history@.redo.len() == 0,
    {
        OpsContext { history: History::new() }
    }
}

} // verus!
