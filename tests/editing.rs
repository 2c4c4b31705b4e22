use smart_rte_core::doc::{InlineSpan, InlineStyle, Node, Table};
use smart_rte_core::selection::{Anchor, SelectionRange};
use smart_rte_core::EditorCore;

fn first_table(core: &EditorCore) -> &Table {
    for n in &core.doc.nodes {
        if let Node::Table(t) = n {
            return t;
        }
    }
    panic!("no table");
}

fn cell_anchor(row: usize, col: usize) -> Anchor {
    Anchor::TableCell { table_node_index: 0, row, col, char_offset: 0 }
}

#[test]
fn merge_then_split_scenario() {
    let mut core = EditorCore::new_empty();
    core.insert_table(2, 2);
    core.set_cell_text(0, 0, "A");
    core.merge_cells(0, 0, 1, 1);
    {
        let t = first_table(&core);
        let m = &t.rows[0].cells[0];
        assert_eq!(m.colspan, 2);
        assert_eq!(m.rowspan, 2);
        assert_eq!(m.text, "A");
        assert!(!m.placeholder);
        for (r, c) in [(0, 1), (1, 0), (1, 1)] {
            let cell = &t.rows[r].cells[c];
            assert!(cell.placeholder);
            assert_eq!(cell.text, "");
        }
    }
    core.split_cell(0, 0);
    let t = first_table(&core);
    for r in 0..2 {
        for c in 0..2 {
            let cell = &t.rows[r].cells[c];
            assert_eq!(cell.colspan, 1);
            assert_eq!(cell.rowspan, 1);
            assert!(!cell.placeholder);
        }
    }
    assert_eq!(t.rows[0].cells[0].text, "A");
    assert_eq!(t.rows[0].cells[1].text, "");
    assert_eq!(t.rows[1].cells[0].text, "");
    assert_eq!(t.rows[1].cells[1].text, "");
}

#[test]
fn merge_joins_texts_row_major() {
    let mut core = EditorCore::new_empty();
    core.insert_table(2, 3);
    core.set_cell_text(0, 1, "a");
    core.set_cell_text(0, 2, "b");
    core.set_cell_text(1, 1, "c");
    core.merge_cells(1, 2, 0, 1);
    let t = first_table(&core);
    let m = &t.rows[0].cells[1];
    assert_eq!(m.text, "a b c");
    assert_eq!(m.colspan, 2);
    assert_eq!(m.rowspan, 2);
    assert!(t.rows[1].cells[2].placeholder);
    assert!(!t.rows[0].cells[0].placeholder);
}

#[test]
fn merge_out_of_range_changes_nothing() {
    let mut core = EditorCore::new_empty();
    core.insert_table(2, 2);
    core.merge_cells(0, 0, 2, 1);
    let t = first_table(&core);
    assert_eq!(t.rows[0].cells[0].colspan, 1);
    assert!(!t.rows[1].cells[1].placeholder);
}

#[test]
fn merge_split_restores_layout() {
    let mut core = EditorCore::new_empty();
    core.insert_table(3, 3);
    core.merge_cells(0, 1, 2, 2);
    core.split_cell(0, 1);
    let t = first_table(&core);
    for r in 0..3 {
        for c in 0..3 {
            assert_eq!(t.rows[r].cells[c].colspan, 1);
            assert_eq!(t.rows[r].cells[c].rowspan, 1);
            assert!(!t.rows[r].cells[c].placeholder);
        }
    }
}

#[test]
fn anchor_follows_row_insert() {
    let mut sel = SelectionRange { start: cell_anchor(2, 0), end: cell_anchor(0, 0) };
    sel.map_table_row_insert(0, 1);
    assert_eq!(sel.start, cell_anchor(3, 0));
    assert_eq!(sel.end, cell_anchor(0, 0));
}

#[test]
fn anchor_follows_row_move() {
    let mut a = SelectionRange { start: cell_anchor(2, 0), end: cell_anchor(1, 0) };
    a.map_table_row_move(0, 1, 3);
    assert_eq!(a.start, cell_anchor(1, 0));
    assert_eq!(a.end, cell_anchor(3, 0));
    let mut b = SelectionRange { start: cell_anchor(0, 0), end: cell_anchor(4, 0) };
    b.map_table_row_move(0, 1, 3);
    assert_eq!(b.start, cell_anchor(0, 0));
    assert_eq!(b.end, cell_anchor(4, 0));
}

#[test]
fn anchors_of_other_tables_and_text_stay() {
    let text = Anchor::Text { node_index: 0, char_offset: 3 };
    let other = Anchor::TableCell { table_node_index: 5, row: 2, col: 2, char_offset: 0 };
    let mut sel = SelectionRange { start: text, end: other };
    sel.map_table_row_insert(0, 0);
    sel.map_table_col_insert(0, 0);
    sel.map_table_merge(0, 0, 0, 3, 3);
    assert_eq!(sel.start, text);
    assert_eq!(sel.end, other);
}

#[test]
fn anchor_collapses_on_merge_and_col_moves() {
    let mut sel = SelectionRange { start: cell_anchor(2, 3), end: cell_anchor(0, 5) };
    sel.map_table_merge(0, 3, 4, 1, 2);
    assert_eq!(sel.start, cell_anchor(1, 2));
    assert_eq!(sel.end, cell_anchor(0, 5));
    sel.map_table_col_insert(0, 2);
    assert_eq!(sel.start, cell_anchor(1, 3));
    sel.map_table_col_move(0, 3, 0);
    assert_eq!(sel.start, cell_anchor(1, 0));
    assert_eq!(sel.end, cell_anchor(0, 6));
    sel.map_table_split(0, 1, 0);
    sel.normalize();
    assert_eq!(sel.start, cell_anchor(1, 0));
}

fn para_spans(core: &EditorCore, i: usize) -> Vec<InlineSpan> {
    match &core.doc.nodes[i] {
        Node::Paragraph { spans: Some(s), .. } => s.clone(),
        Node::Heading { spans: Some(s), .. } => s.clone(),
        _ => panic!("no spans"),
    }
}

fn joined(spans: &[InlineSpan]) -> String {
    spans.iter().map(|s| s.text.as_str()).collect()
}

#[test]
fn inline_style_splits_and_keeps_text() {
    let mut core = EditorCore::new_empty();
    core.insert_paragraph(0, "Hello world");
    core.set_text_style(0, 2, 7, "{\"bold\":true,\"color\":\"#f00\"}");
    let spans = para_spans(&core, 0);
    assert_eq!(spans.len(), 3);
    assert_eq!(spans[0].text, "He");
    assert!(!spans[0].style.bold);
    assert_eq!(spans[1].text, "llo w");
    assert!(spans[1].style.bold);
    assert_eq!(spans[1].style.color.as_deref(), Some("#f00"));
    assert_eq!(spans[2].text, "orld");
    assert_eq!(joined(&spans), "Hello world");

    core.set_text_style(0, 0, 100, "{\"italic\":true,\"font_size_px\":18}");
    let spans = para_spans(&core, 0);
    assert_eq!(spans.len(), 3);
    assert!(spans.iter().all(|s| s.style.italic));
    assert!(spans[1].style.bold);
    assert_eq!(spans[2].style.font_size_px, Some(18));
    assert_eq!(joined(&spans), "Hello world");
}

#[test]
fn inline_style_clamps_and_empty_range() {
    let mut core = EditorCore::new_empty();
    core.insert_paragraph(0, "abc");
    core.set_text_style(0, 5, 2, "{\"bold\":true}");
    let spans = para_spans(&core, 0);
    assert_eq!(spans.len(), 1);
    assert_eq!(spans[0].text, "abc");
    assert!(!spans[0].style.bold);
}

#[test]
fn inline_style_on_multibyte_boundary_is_refused() {
    let mut core = EditorCore::new_empty();
    core.insert_paragraph(0, "héllo");
    core.set_text_style(0, 0, 2, "{\"bold\":true}");
    match &core.doc.nodes[0] {
        Node::Paragraph { spans, .. } => assert!(spans.is_none()),
        _ => panic!("not a paragraph"),
    }
    core.set_text_style(0, 0, 3, "{\"bold\":true}");
    let spans = para_spans(&core, 0);
    assert_eq!(spans[0].text, "hé");
    assert!(spans[0].style.bold);
    assert_eq!(joined(&spans), "héllo");
}

#[test]
fn inline_style_ignores_bad_payload_fields() {
    let mut core = EditorCore::new_empty();
    core.insert_paragraph(0, "abcd");
    core.set_text_style(0, 1, 3, "{\"bold\":\"yes\",\"underline\":true,\"highlight\":3}");
    let spans = para_spans(&core, 0);
    assert_eq!(spans.len(), 3);
    assert!(!spans[1].style.bold);
    assert!(spans[1].style.underline);
    assert_eq!(spans[1].style.highlight, None);
}

#[test]
fn cell_text_style_on_cell() {
    let mut core = EditorCore::new_empty();
    core.insert_table(1, 1);
    core.set_cell_text(0, 0, "cell");
    core.set_cell_text_style(0, 0, 0, 2, "{\"underline\":true}");
    let t = first_table(&core);
    let spans = t.rows[0].cells[0].spans.as_ref().unwrap();
    assert_eq!(spans.len(), 2);
    assert_eq!(spans[0].text, "ce");
    assert!(spans[0].style.underline);
    assert_eq!(joined(spans), "cell");
}

#[test]
fn cell_style_from_json_with_defaults() {
    let mut core = EditorCore::new_empty();
    core.insert_table(1, 2);
    core.set_cell_style(0, 1, "{\"background\":\"#eee\",\"border\":{}}");
    let t = first_table(&core);
    let st = &t.rows[0].cells[1].style;
    assert_eq!(st.background.as_deref(), Some("#eee"));
    let b = st.border.as_ref().unwrap();
    assert_eq!(b.color, "#000");
    assert_eq!(b.width_px, 1);
    core.set_cell_style(0, 1, "{\"border\":{\"color\":\"red\",\"width_px\":3}}");
    let t = first_table(&core);
    let st = &t.rows[0].cells[1].style;
    assert_eq!(st.background.as_deref(), Some("#eee"));
    let b = st.border.as_ref().unwrap();
    assert_eq!(b.color, "red");
    assert_eq!(b.width_px, 3);
    core.set_cell_style(0, 1, "not json");
    assert_eq!(first_table(&core).rows[0].cells[1].style.background.as_deref(), Some("#eee"));
}

#[test]
fn rows_and_columns() {
    let mut core = EditorCore::new_empty();
    core.insert_table(2, 2);
    core.add_row(10);
    core.add_col(1);
    {
        let t = first_table(&core);
        assert_eq!(t.rows.len(), 3);
        assert!(t.rows.iter().all(|r| r.cells.len() == 3));
        assert_eq!(t.column_widths, vec![120, 120, 120]);
    }
    core.set_cell_text(2, 0, "last");
    core.move_row(2, 0);
    assert_eq!(first_table(&core).rows[0].cells[0].text, "last");
    core.set_cell_text(0, 2, "right");
    core.move_col(2, 0);
    assert_eq!(first_table(&core).rows[0].cells[0].text, "right");
    assert_eq!(first_table(&core).rows[0].cells[1].text, "last");
    core.delete_col(0);
    core.delete_row(0);
    core.delete_row(7);
    let t = first_table(&core);
    assert_eq!(t.rows.len(), 2);
    assert!(t.rows.iter().all(|r| r.cells.len() == 2));
    assert_eq!(t.column_widths.len(), 2);
}

#[test]
fn sizes_are_clamped() {
    let mut core = EditorCore::new_empty();
    core.insert_table(1, 1);
    core.set_column_width(3, 5);
    core.set_row_height(0, 4);
    core.set_freeze(true, false);
    let t = first_table(&core);
    assert_eq!(t.column_widths, vec![120, 120, 120, 20]);
    assert_eq!(t.rows[0].height_px, Some(12));
    assert!(t.freeze_header);
    assert!(!t.freeze_first_col);
}

#[test]
fn indexed_table_ops_pick_their_table() {
    let mut core = EditorCore::new_empty();
    core.insert_table(1, 1);
    core.insert_paragraph(1, "between");
    core.insert_table_at(1, 2, 2);
    assert_eq!(core.doc.nodes.len(), 3);
    core.set_cell_text_at(2, 1, 1, "x");
    core.add_row_at(2, 0);
    core.merge_cells_at(2, 1, 0, 2, 1);
    core.set_column_width_at(2, 0, 300);
    core.set_row_height_at(2, 0, 40);
    core.set_freeze_at(2, false, true);
    core.add_row_at(1, 0);
    match &core.doc.nodes[2] {
        Node::Table(t) => {
            assert_eq!(t.rows.len(), 3);
            assert_eq!(t.rows[1].cells[0].colspan, 2);
            assert_eq!(t.rows[1].cells[0].rowspan, 2);
            assert_eq!(t.rows[1].cells[0].text, "x");
            assert_eq!(t.column_widths[0], 300);
            assert_eq!(t.rows[0].height_px, Some(40));
            assert!(t.freeze_first_col);
        }
        _ => panic!("not a table"),
    }
    assert_eq!(first_table(&core).rows.len(), 1);
}

#[test]
fn undo_redo_round_trip() {
    let mut core = EditorCore::new_empty();
    core.insert_paragraph(0, "one");
    core.insert_paragraph(1, "two");
    assert_eq!(core.doc.nodes.len(), 2);
    core.undo();
    assert_eq!(core.doc.nodes.len(), 1);
    core.undo();
    assert_eq!(core.doc.nodes.len(), 0);
    core.undo();
    assert_eq!(core.doc.nodes.len(), 0);
    core.redo();
    core.redo();
    assert_eq!(core.doc.nodes.len(), 2);
    core.undo();
    core.insert_formula_block("x^2");
    core.redo();
    assert_eq!(core.doc.nodes.len(), 2);
    assert!(matches!(core.doc.nodes[1], Node::FormulaBlock { .. }));
    assert!(core.history.redo_stack.is_empty());
}

#[test]
fn comments_get_sequential_ids() {
    let mut core = EditorCore::new_empty();
    let a = core.add_comment(None, "first", 5);
    let sel = SelectionRange { start: cell_anchor(0, 0), end: cell_anchor(0, 1) };
    let b = core.add_comment(Some(sel), "second", 6);
    assert_eq!(a, "thread-1");
    assert_eq!(b, "thread-2");
    assert_eq!(core.doc.threads[1].anchor, Some(sel));
    assert_eq!(core.doc.threads[0].messages[0].author, "user");
    assert_eq!(core.doc.threads[0].messages[0].text, "first");
    core.resolve_comment("thread-2", true);
    assert!(core.doc.threads[1].resolved);
    assert!(!core.doc.threads[0].resolved);
    core.resolve_comment("thread-9", true);
    assert!(!core.doc.threads[0].resolved);
    for _ in 0..8 {
        core.add_comment(None, "more", 7);
    }
    assert_eq!(core.doc.threads[9].id, "thread-10");
}

#[test]
fn node_inserts_and_updates() {
    let mut core = EditorCore::new_empty();
    core.insert_mcq(true);
    core.insert_infobox("info", "note");
    core.insert_image_at(0, "a.png", "alt");
    core.insert_formula_inline_at(99, "x");
    core.insert_formula_inline("y");
    core.insert_paragraph(99, "end");
    assert_eq!(core.doc.nodes.len(), 6);
    assert!(matches!(&core.doc.nodes[1], Node::Image { src, .. } if src == "a.png"));
    assert!(matches!(&core.doc.nodes[3], Node::FormulaInline { tex } if tex == "x"));
    core.update_mcq(0, "Q?", None, false);
    match &core.doc.nodes[0] {
        Node::MCQBlock(b) => {
            assert_eq!(b.question, "Q?");
            assert_eq!(b.options.len(), 4);
            assert_eq!(b.options[3].text, "Option D");
            assert!(!b.multiple);
        }
        _ => panic!("not an mcq"),
    }
    core.update_infobox(2, "warning", "careful");
    assert!(matches!(&core.doc.nodes[2], Node::InfoBox(b) if b.kind == "warning" && b.text == "careful"));
    core.set_paragraph_text(5, "changed");
    assert!(matches!(&core.doc.nodes[5], Node::Paragraph { text, .. } if text == "changed"));
    core.set_paragraph_text(2, "ignored");
    assert!(matches!(&core.doc.nodes[2], Node::InfoBox(b) if b.text == "careful"));
    core.delete_node(40);
    assert_eq!(core.doc.nodes.len(), 6);
    core.delete_node(0);
    assert_eq!(core.doc.nodes.len(), 5);
}

#[test]
fn heading_spans_are_styled_too() {
    let mut core = EditorCore::new_empty();
    core.doc.nodes.push(Node::Heading { level: 2, text: "Title".to_string(), spans: None });
    core.set_text_style(0, 0, 1, "{\"bold\":true}");
    let spans = para_spans(&core, 0);
    assert_eq!(spans[0].text, "T");
    assert!(spans[0].style.bold);
    let _ = InlineStyle::plain();
}
