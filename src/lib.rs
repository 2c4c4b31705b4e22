//! Editing core of a structured rich-text document: a document tree, the
//! table transform and inline style engines that edit it, anchors that follow
//! table edits, comment threads, and snapshot-based undo/redo.
pub mod comments;
pub mod delta;
pub mod doc;
pub mod history;
pub mod import_export;
pub mod inline;
pub mod ops;
pub mod selection;
pub mod style_json;
pub mod table;

use vstd::prelude::*;

use crate::comments::{thread_id, thread_id_spec, CommentThread, MessageView, ThreadView};
use crate::doc::{opt_views, views, CellView, Doc, DocView, InfoBoxView, MCQOption, NodeView, TableView};
use crate::history::{recorded, redo_spec, undo_spec, History};
use crate::ops::{edit_at_spec, edit_first_spec, TableEdit};
use crate::selection::SelectionRange;
use crate::style_json::{cell_style_of_json, inline_style_of_json};
use crate::table::{update_cell, with_style, with_styled_spans, with_text};

verus! {

/// A document together with its undo/redo history: one editing session.
#[derive(Debug, Default)]
pub struct EditorCore {
    pub doc: Doc,
    pub history: History,
}

/// The first thread at or after `k` whose id is `id`; the thread count when
/// there is none.
pub open spec fn find_thread_from(threads: Seq<ThreadView>, id: Seq<char>, k: int) -> int
    decreases threads.len() - k,
{
    if k >= threads.len() || k < 0 {
        threads.len() as int
    } else if threads[k].id == id {
        k
    } else {
        find_thread_from(threads, id, k + 1)
    }
}

/// The document after the first thread with id `id`, if any, is marked
/// resolved or not.
pub open spec fn resolve_spec(d: DocView, id: Seq<char>, resolved: bool) -> DocView {
    let k = find_thread_from(d.threads, id, 0);
    if k < d.threads.len() {
        DocView { threads: d.threads.update(k, ThreadView { resolved, ..d.threads[k] }), ..d }
    } else {
        d
    }
}

/// The thread that a new comment opens, as the `n`-th thread of the document.
pub open spec fn new_thread_spec(n: nat, anchor: Option<SelectionRange>, text: Seq<char>, ts_ms: i64) -> ThreadView {
    ThreadView {
        id: thread_id_spec(n),
        resolved: false,
        messages: seq![MessageView { author: "user"@, text, ts_ms }],
        anchor,
    }
}

proof fn lemma_find_thread_from(threads: Seq<ThreadView>, id: Seq<char>, k: int)
    requires
        0 <= k <= threads.len(),
    ensures
        k <= find_thread_from(threads, id, k) <= threads.len(),
        find_thread_from(threads, id, k) < threads.len() ==> threads[find_thread_from(threads, id, k)].id == id,
    decreases threads.len() - k,
{
    if k < threads.len() && threads[k].id != id {
        lemma_find_thread_from(threads, id, k + 1);
    }
}

impl EditorCore {
    pub fn new_empty() -> (r: Self)
        ensures
            r.doc@.nodes.len() == 0,
            r.doc@.threads.len() == 0,
            r.history@.undo.len() == 0,
            r.history@.redo.len() == 0,
    {
        EditorCore { doc: Doc::empty(), history: History::new() }
    }

    /// The document as HTML.
    pub fn to_html(&self) -> (r: String)
        ensures
            r@ == import_export::doc_html(self.doc@),
    {
        import_export::to_html(&self.doc)
    }

    /// The document as Markdown.
    pub fn to_markdown(&self) -> (r: String)
        ensures
            r@ == import_export::doc_md(self.doc@),
    {
        import_export::to_markdown(&self.doc)
    }

    /// The document as delta ops.
    pub fn to_delta(&self) -> (r: Vec<delta::DeltaOp>)
        ensures
            views(r@) == delta::nodes_delta(self.doc@.nodes),
    {
        delta::to_quill_delta(&self.doc)
    }

    /// Replaces the document by the one the delta ops describe.
    pub fn from_delta(&mut self, ops: &Vec<delta::DeltaOp>)
        ensures
            final(self).history@ == recorded(old(self).history@, old(self).doc@),
            final(self).doc@.nodes == delta::delta_nodes(views(ops@)),
            final(self).doc@.threads.len() == 0,
    {
        self.history.record_before_change(&self.doc);
        self.doc = delta::from_quill_delta(ops);
    }

    // Table ops

    pub fn insert_table(&mut self, rows: u32, cols: u32)
        ensures
            final(self).history@ == recorded(old(self).history@, old(self).doc@),
            final(self).doc@ == ops::pushed(old(self).doc@, NodeView::Table(ops::new_table_spec(rows, cols))),
    {
        ops::insert_table(&mut self.doc, rows, cols, &mut self.history);
    }

    pub fn add_row(&mut self, at: u32)
        ensures
            final(self).history@ == recorded(old(self).history@, old(self).doc@),
            final(self).doc@ == edit_first_spec(old(self).doc@, TableEdit::AddRow(at)),
    {
        ops::add_row(&mut self.doc, at, &mut self.history);
    }

    pub fn add_col(&mut self, at: u32)
        ensures
            final(self).history@ == recorded(old(self).history@, old(self).doc@),
            final(self).doc@ == edit_first_spec(old(self).doc@, TableEdit::AddCol(at)),
    {
        ops::add_col(&mut self.doc, at, &mut self.history);
    }

    pub fn move_row(&mut self, from: u32, to: u32)
        ensures
            final(self).history@ == recorded(old(self).history@, old(self).doc@),
            final(self).doc@ == edit_first_spec(old(self).doc@, TableEdit::MoveRow(from, to)),
    {
        ops::move_row(&mut self.doc, from, to, &mut self.history);
    }

    pub fn move_col(&mut self, from: u32, to: u32)
        ensures
            final(self).history@ == recorded(old(self).history@, old(self).doc@),
            final(self).doc@ == edit_first_spec(old(self).doc@, TableEdit::MoveCol(from, to)),
    {
        ops::move_col(&mut self.doc, from, to, &mut self.history);
    }

    pub fn delete_row(&mut self, at: u32)
        ensures
            final(self).history@ == recorded(old(self).history@, old(self).doc@),
            final(self).doc@ == edit_first_spec(old(self).doc@, TableEdit::DeleteRow(at)),
    {
        ops::delete_row(&mut self.doc, at, &mut self.history);
    }

    pub fn delete_col(&mut self, at: u32)
        ensures
            final(self).history@ == recorded(old(self).history@, old(self).doc@),
            final(self).doc@ == edit_first_spec(old(self).doc@, TableEdit::DeleteCol(at)),
    {
        ops::delete_col(&mut self.doc, at, &mut self.history);
    }

    pub fn merge_cells(&mut self, sr: u32, sc: u32, er: u32, ec: u32)
        ensures
            final(self).history@ == recorded(old(self).history@, old(self).doc@),
            final(self).doc@ == edit_first_spec(old(self).doc@, TableEdit::Merge(sr, sc, er, ec)),
    {
        ops::merge_cells(&mut self.doc, sr, sc, er, ec, &mut self.history);
    }

    pub fn split_cell(&mut self, r: u32, c: u32)
        ensures
            final(self).history@ == recorded(old(self).history@, old(self).doc@),
            final(self).doc@ == edit_first_spec(old(self).doc@, TableEdit::Split(r, c)),
    {
        ops::split_cell(&mut self.doc, r, c, &mut self.history);
    }

    pub fn set_cell_style(&mut self, r: u32, c: u32, style_json: &str)
        ensures
            final(self).history@ == recorded(old(self).history@, old(self).doc@),
            final(self).doc@ == ops::on_table_at(
                old(self).doc@,
                ops::first_table(old(self).doc@),
                |t: TableView| update_cell(t, r as int, c as int, |x: CellView| with_style(x, cell_style_of_json(style_json@))),
            ),
    {
        ops::set_cell_style(&mut self.doc, r, c, style_json, &mut self.history);
    }

    pub fn set_cell_text(&mut self, r: u32, c: u32, text: &str)
        ensures
            final(self).history@ == recorded(old(self).history@, old(self).doc@),
            final(self).doc@ == ops::on_table_at(
                old(self).doc@,
                ops::first_table(old(self).doc@),
                |t: TableView| update_cell(t, r as int, c as int, |x: CellView| with_text(x, text@)),
            ),
    {
        ops::edit_first_recorded(&mut self.doc, &TableEdit::CellText(r, c, text.to_owned()), &mut self.history);
    }

    pub fn set_column_width(&mut self, col: u32, px: u32)
        ensures
            final(self).history@ == recorded(old(self).history@, old(self).doc@),
            final(self).doc@ == edit_first_spec(old(self).doc@, TableEdit::ColumnWidth(col, px)),
    {
        ops::set_column_width(&mut self.doc, col, px, &mut self.history);
    }

    pub fn set_freeze(&mut self, header: bool, first_col: bool)
        ensures
            final(self).history@ == recorded(old(self).history@, old(self).doc@),
            final(self).doc@ == edit_first_spec(old(self).doc@, TableEdit::Freeze(header, first_col)),
    {
        ops::set_freeze(&mut self.doc, header, first_col, &mut self.history);
    }

    pub fn insert_mcq(&mut self, multiple: bool)
        ensures
            final(self).history@ == recorded(old(self).history@, old(self).doc@),
            final(self).doc@ == ops::pushed(old(self).doc@, NodeView::MCQBlock(ops::new_mcq_spec(multiple))),
    {
        ops::insert_mcq(&mut self.doc, multiple, &mut self.history);
    }

    /// Updates the multiple-choice block at `index`; `options` is `None` when the
    /// caller's option list could not be read, which keeps the old options.
    pub fn update_mcq(&mut self, index: u32, question: &str, options: Option<Vec<MCQOption>>, multiple: bool)
        ensures
            final(self).history@ == recorded(old(self).history@, old(self).doc@),
            final(self).doc@ == ops::update_mcq_spec(old(self).doc@, index as int, Some(question@), opt_views(options), Some(multiple)),
    {
        ops::update_mcq(&mut self.doc, index as usize, Some(question.to_owned()), options, Some(multiple), &mut self.history);
    }

    pub fn insert_infobox(&mut self, kind: &str, text: &str)
        ensures
            final(self).history@ == recorded(old(self).history@, old(self).doc@),
            final(self).doc@ == ops::pushed(old(self).doc@, NodeView::InfoBox(InfoBoxView { kind: kind@, text: text@ })),
    {
        ops::insert_infobox(&mut self.doc, kind, text, &mut self.history);
    }

    pub fn update_infobox(&mut self, index: u32, kind: &str, text: &str)
        ensures
            final(self).history@ == recorded(old(self).history@, old(self).doc@),
            final(self).doc@ == ops::update_infobox_spec(old(self).doc@, index as int, Some(kind@), Some(text@)),
    {
        ops::update_infobox(&mut self.doc, index as usize, Some(kind.to_owned()), Some(text.to_owned()), &mut self.history);
    }

    pub fn insert_formula_inline(&mut self, tex: &str)
        ensures
            final(self).history@ == recorded(old(self).history@, old(self).doc@),
            final(self).doc@ == ops::pushed(old(self).doc@, NodeView::FormulaInline { tex: tex@ }),
    {
        ops::insert_formula_inline(&mut self.doc, tex, &mut self.history);
    }

    pub fn insert_formula_block(&mut self, tex: &str)
        ensures
            final(self).history@ == recorded(old(self).history@, old(self).doc@),
            final(self).doc@ == ops::pushed(old(self).doc@, NodeView::FormulaBlock { tex: tex@ }),
    {
        ops::insert_formula_block(&mut self.doc, tex, &mut self.history);
    }

    pub fn set_paragraph_text(&mut self, index: u32, text: &str)
        ensures
            final(self).history@ == recorded(old(self).history@, old(self).doc@),
            final(self).doc@ == ops::set_paragraph_text_spec(old(self).doc@, index as int, text@),
    {
        ops::set_paragraph_text(&mut self.doc, index as usize, text, &mut self.history);
    }

    pub fn insert_formula_inline_at(&mut self, after_index: u32, tex: &str)
        ensures
            final(self).history@ == recorded(old(self).history@, old(self).doc@),
            final(self).doc@ == ops::inserted(old(self).doc@, ops::after_pos(old(self).doc@, after_index as int), NodeView::FormulaInline { tex: tex@ }),
    {
        ops::insert_formula_inline_at(&mut self.doc, after_index as usize, tex, &mut self.history);
    }

    pub fn insert_formula_block_at(&mut self, after_index: u32, tex: &str)
        ensures
            final(self).history@ == recorded(old(self).history@, old(self).doc@),
            final(self).doc@ == ops::inserted(old(self).doc@, ops::after_pos(old(self).doc@, after_index as int), NodeView::FormulaBlock { tex: tex@ }),
    {
        ops::insert_formula_block_at(&mut self.doc, after_index as usize, tex, &mut self.history);
    }

    pub fn insert_image_at(&mut self, after_index: u32, src: &str, alt: &str)
        ensures
            final(self).history@ == recorded(old(self).history@, old(self).doc@),
            final(self).doc@ == ops::inserted(old(self).doc@, ops::after_pos(old(self).doc@, after_index as int), NodeView::Image { src: src@, alt: alt@ }),
    {
        ops::insert_image_at(&mut self.doc, after_index as usize, src, alt, &mut self.history);
    }

    pub fn insert_paragraph(&mut self, at: u32, text: &str)
        ensures
            final(self).history@ == recorded(old(self).history@, old(self).doc@),
            final(self).doc@ == ops::inserted(
                old(self).doc@,
                if (at as int) < old(self).doc@.nodes.len() { at as int } else { old(self).doc@.nodes.len() as int },
                NodeView::Paragraph { text: text@, spans: None },
            ),
    {
        ops::insert_paragraph(&mut self.doc, at, text, &mut self.history);
    }

    pub fn delete_node(&mut self, at: u32)
        ensures
            final(self).history@ == recorded(old(self).history@, old(self).doc@),
            final(self).doc@ == ops::delete_node_spec(old(self).doc@, at as int),
    {
        ops::delete_node(&mut self.doc, at as usize, &mut self.history);
    }

    pub fn insert_table_at(&mut self, after_index: u32, rows: u32, cols: u32)
        ensures
            final(self).history@ == recorded(old(self).history@, old(self).doc@),
            final(self).doc@ == ops::inserted(old(self).doc@, ops::after_pos(old(self).doc@, after_index as int), NodeView::Table(ops::new_table_spec(rows, cols))),
    {
        ops::insert_table_at(&mut self.doc, after_index as usize, rows, cols, &mut self.history);
    }

    pub fn set_text_style(&mut self, index: u32, start: u32, end: u32, style_json: &str)
        ensures
            final(self).history@ == recorded(old(self).history@, old(self).doc@),
            final(self).doc@ == ops::set_text_style_spec(old(self).doc@, index as int, start as int, end as int, inline_style_of_json(style_json@)),
    {
        ops::set_text_style(&mut self.doc, index as usize, start as usize, end as usize, style_json, &mut self.history);
    }

    pub fn set_cell_text_style(&mut self, r: u32, c: u32, start: u32, end: u32, style_json: &str)
        ensures
            final(self).history@ == recorded(old(self).history@, old(self).doc@),
            final(self).doc@ == ops::on_table_at(
                old(self).doc@,
                ops::first_table(old(self).doc@),
                |t: TableView|
                    update_cell(
                        t,
                        r as int,
                        c as int,
                        |x: CellView| with_styled_spans(x, start as int, end as int, inline_style_of_json(style_json@)),
                    ),
            ),
    {
        ops::set_cell_text_style(&mut self.doc, r, c, start as usize, end as usize, style_json, &mut self.history);
    }

    pub fn set_row_height(&mut self, r: u32, px: u32)
        ensures
            final(self).history@ == recorded(old(self).history@, old(self).doc@),
            final(self).doc@ == edit_first_spec(old(self).doc@, TableEdit::RowHeight(r, px)),
    {
        ops::set_row_height(&mut self.doc, r, px, &mut self.history);
    }

    // Table-indexed variants

    pub fn set_cell_text_at(&mut self, table_idx: u32, r: u32, c: u32, text: &str)
        ensures
            final(self).history@ == recorded(old(self).history@, old(self).doc@),
            final(self).doc@ == ops::on_table_at(
                old(self).doc@,
                table_idx as int,
                |t: TableView| update_cell(t, r as int, c as int, |x: CellView| with_text(x, text@)),
            ),
    {
        ops::set_cell_text_at(&mut self.doc, table_idx as usize, r, c, text, &mut self.history);
    }

    pub fn set_cell_style_at(&mut self, table_idx: u32, r: u32, c: u32, style_json: &str)
        ensures
            final(self).history@ == recorded(old(self).history@, old(self).doc@),
            final(self).doc@ == ops::on_table_at(
                old(self).doc@,
                table_idx as int,
                |t: TableView| update_cell(t, r as int, c as int, |x: CellView| with_style(x, cell_style_of_json(style_json@))),
            ),
    {
        ops::set_cell_style_at(&mut self.doc, table_idx as usize, r, c, style_json, &mut self.history);
    }

    pub fn set_cell_text_style_at(&mut self, table_idx: u32, r: u32, c: u32, start: u32, end: u32, style_json: &str)
        ensures
            final(self).history@ == recorded(old(self).history@, old(self).doc@),
            final(self).doc@ == ops::on_table_at(
                old(self).doc@,
                table_idx as int,
                |t: TableView|
                    update_cell(
                        t,
                        r as int,
                        c as int,
                        |x: CellView| with_styled_spans(x, start as int, end as int, inline_style_of_json(style_json@)),
                    ),
            ),
    {
        ops::set_cell_text_style_at(&mut self.doc, table_idx as usize, r, c, start as usize, end as usize, style_json, &mut self.history);
    }

    pub fn set_column_width_at(&mut self, table_idx: u32, col: u32, px: u32)
        ensures
            final(self).history@ == recorded(old(self).history@, old(self).doc@),
            final(self).doc@ == edit_at_spec(old(self).doc@, table_idx as int, TableEdit::ColumnWidth(col, px)),
    {
        ops::set_column_width_at(&mut self.doc, table_idx as usize, col, px, &mut self.history);
    }

    pub fn set_freeze_at(&mut self, table_idx: u32, header: bool, first_col: bool)
        ensures
            final(self).history@ == recorded(old(self).history@, old(self).doc@),
            final(self).doc@ == edit_at_spec(old(self).doc@, table_idx as int, TableEdit::Freeze(header, first_col)),
    {
        ops::set_freeze_at(&mut self.doc, table_idx as usize, header, first_col, &mut self.history);
    }

    pub fn add_row_at(&mut self, table_idx: u32, at: u32)
        ensures
            final(self).history@ == recorded(old(self).history@, old(self).doc@),
            final(self).doc@ == edit_at_spec(old(self).doc@, table_idx as int, TableEdit::AddRow(at)),
    {
        ops::add_row_at(&mut self.doc, table_idx as usize, at, &mut self.history);
    }

    pub fn add_col_at(&mut self, table_idx: u32, at: u32)
        ensures
            final(self).history@ == recorded(old(self).history@, old(self).doc@),
            final(self).doc@ == edit_at_spec(old(self).doc@, table_idx as int, TableEdit::AddCol(at)),
    {
        ops::add_col_at(&mut self.doc, table_idx as usize, at, &mut self.history);
    }

    pub fn delete_row_at(&mut self, table_idx: u32, at: u32)
        ensures
            final(self).history@ == recorded(old(self).history@, old(self).doc@),
            final(self).doc@ == edit_at_spec(old(self).doc@, table_idx as int, TableEdit::DeleteRow(at)),
    {
        ops::delete_row_at(&mut self.doc, table_idx as usize, at, &mut self.history);
    }

    pub fn delete_col_at(&mut self, table_idx: u32, at: u32)
        ensures
            final(self).history@ == recorded(old(self).history@, old(self).doc@),
            final(self).doc@ == edit_at_spec(old(self).doc@, table_idx as int, TableEdit::DeleteCol(at)),
    {
        ops::delete_col_at(&mut self.doc, table_idx as usize, at, &mut self.history);
    }

    pub fn merge_cells_at(&mut self, table_idx: u32, sr: u32, sc: u32, er: u32, ec: u32)
        ensures
            final(self).history@ == recorded(old(self).history@, old(self).doc@),
            final(self).doc@ == edit_at_spec(old(self).doc@, table_idx as int, TableEdit::Merge(sr, sc, er, ec)),
    {
        ops::merge_cells_at(&mut self.doc, table_idx as usize, sr, sc, er, ec, &mut self.history);
    }

    pub fn split_cell_at(&mut self, table_idx: u32, r: u32, c: u32)
        ensures
            final(self).history@ == recorded(old(self).history@, old(self).doc@),
            final(self).doc@ == edit_at_spec(old(self).doc@, table_idx as int, TableEdit::Split(r, c)),
    {
        ops::split_cell_at(&mut self.doc, table_idx as usize, r, c, &mut self.history);
    }

    pub fn set_row_height_at(&mut self, table_idx: u32, r: u32, px: u32)
        ensures
            final(self).history@ == recorded(old(self).history@, old(self).doc@),
            final(self).doc@ == edit_at_spec(old(self).doc@, table_idx as int, TableEdit::RowHeight(r, px)),
    {
        ops::set_row_height_at(&mut self.doc, table_idx as usize, r, px, &mut self.history);
    }

    // History

    pub fn undo(&mut self)
        ensures
            (final(self).history@, final(self).doc@) == undo_spec(old(self).history@, old(self).doc@),
    {
        let _ = self.history.undo(&mut self.doc);
    }

    pub fn redo(&mut self)
        ensures
            (final(self).history@, final(self).doc@) == redo_spec(old(self).history@, old(self).doc@),
    {
        let _ = self.history.redo(&mut self.doc);
    }

    // Comments

    /// Opens a comment thread with one message by `user`, at `anchor` if
    /// given, and returns its id, `thread-` followed by the new thread count.
    pub fn add_comment(&mut self, anchor: Option<SelectionRange>, text: &str, ts_ms: i64) -> (id: String)
        requires
            old(self).doc@.threads.len() < usize::MAX,
        ensures
            final(self).history@ == recorded(old(self).history@, old(self).doc@),
            final(self).doc@ == (DocView {
                threads: old(self).doc@.threads.push(
                    new_thread_spec((old(self).doc@.threads.len() + 1) as nat, anchor, text@, ts_ms),
                ),
                ..old(self).doc@
            }),
            id@ == thread_id_spec((old(self).doc@.threads.len() + 1) as nat),
    {
        self.history.record_before_change(&self.doc);
        let id = thread_id(self.doc.threads.len() + 1);
        let mut thread = CommentThread::new(id.clone(), anchor);
        proof {
            reveal_strlit("user");
        }
        thread.add_message("user".to_owned(), text.to_owned(), ts_ms);
        let ghost tv = thread@;
        assert(tv.messages =~= seq![MessageView { author: "user"@, text: text@, ts_ms }]);
        self.doc.threads.push(thread);
        assert(self.doc@.threads =~= old(self).doc@.threads.push(tv));
        id
    }

    /// Marks the first thread with id `thread_id` resolved or not; no change
    /// when there is none.
    pub fn resolve_comment(&mut self, thread_id: &str, resolved: bool)
        ensures
            final(self).history@ == recorded(old(self).history@, old(self).doc@),
            final(self).doc@ == resolve_spec(old(self).doc@, thread_id@, resolved),
    {
        let ghost d0 = self.doc@;
        self.history.record_before_change(&self.doc);
        proof {
            lemma_find_thread_from(d0.threads, thread_id@, 0);
        }
        let target = thread_id.to_owned();
        let mut k: usize = 0;
        while k < self.doc.threads.len()
            invariant
                d0 == self.doc@,
                d0 == old(self).doc@,
                target@ == thread_id@,
                self.history@ == recorded(old(self).history@, old(self).doc@),
                k <= d0.threads.len(),
                find_thread_from(d0.threads, thread_id@, k as int) == find_thread_from(d0.threads, thread_id@, 0),
            decreases d0.threads.len() - k,
        {
            if self.doc.threads[k].id == target {
                let ghost before = self.doc.threads@;
                self.doc.threads[k].set_resolved(resolved);
                assert(self.doc.threads@ == before.update(k as int, self.doc.threads@[k as int]));
                assert(self.doc@.threads =~= resolve_spec(d0, thread_id@, resolved).threads);
                assert(self.doc@.nodes == d0.nodes);
                return ;
            }
            k += 1;
        }
    }
}

} // verus!
