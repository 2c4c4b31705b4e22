use smart_rte_core::comments::{thread_id, CommentThread};
use smart_rte_core::doc::{BorderStyle, CellStyle, Doc, InlineSpan, InlineStyle, Node, Table, TableCell};
use smart_rte_core::history::History;
use smart_rte_core::inline::{apply_style, byte_len, cuts_fit};
use smart_rte_core::ops::{self, first_table_indices, has_table, OpsContext};
use smart_rte_core::style_json::{parse_cell_style, parse_inline_style};

fn plain(text: &str) -> InlineSpan {
    InlineSpan { text: text.to_string(), style: InlineStyle::plain() }
}

#[test]
fn history_undo_redo_stacks() {
    let mut h = History::new();
    let mut doc = Doc::default();
    assert!(!h.undo(&mut doc));
    h.record_before_change(&doc);
    doc.nodes.push(Node::FormulaInline { tex: "a".to_string() });
    h.record_before_change(&doc);
    doc.nodes.push(Node::FormulaInline { tex: "b".to_string() });
    assert!(h.undo(&mut doc));
    assert_eq!(doc.nodes.len(), 1);
    assert_eq!(h.redo_stack.len(), 1);
    assert!(h.redo(&mut doc));
    assert_eq!(doc.nodes.len(), 2);
    assert!(!h.redo(&mut doc));
    h.clear();
    assert!(h.undo_stack.is_empty() && h.redo_stack.is_empty());
}

#[test]
fn cell_style_merge_field_by_field() {
    let mut cur = CellStyle { background: Some("red".to_string()), border: None };
    let incoming = CellStyle {
        background: None,
        border: Some(BorderStyle { color: "blue".to_string(), width_px: 2 }),
    };
    cur.merge(&incoming);
    assert_eq!(cur.background.as_deref(), Some("red"));
    assert_eq!(cur.border.as_ref().map(|b| b.width_px), Some(2));
}

#[test]
fn default_cell_is_one_by_one() {
    let c = TableCell::default();
    assert_eq!((c.colspan, c.rowspan, c.placeholder), (1, 1, false));
    assert!(c.text.is_empty() && c.spans.is_none());
}

#[test]
fn table_methods() {
    let mut t = Table::default();
    t.column_widths = vec![50, 60];
    t.add_row(0);
    assert_eq!(t.rows[0].cells.len(), 2);
    t.add_col(9);
    assert_eq!(t.column_widths, vec![50, 60, 120]);
    assert_eq!(t.rows[0].cells.len(), 3);
    t.move_col(0, 2);
    assert_eq!(t.column_widths, vec![60, 120, 50]);
    t.delete_col(5);
    assert_eq!(t.column_widths.len(), 3);
    t.set_cell_text(0, 2, "z");
    t.set_cell_text_style(0, 2, 0, 1, &parse_inline_style("{\"bold\":true}"));
    assert!(t.rows[0].cells[2].spans.as_ref().unwrap()[0].style.bold);
    t.split_cell(0, 0);
    t.set_freeze(false, true);
    assert!(t.freeze_first_col);
}

#[test]
fn style_payload_parsing() {
    let st = parse_cell_style("{\"background\":7,\"border\":{\"width_px\":4}}");
    assert_eq!(st.background, None);
    assert_eq!(st.border.as_ref().map(|b| (b.color.as_str(), b.width_px)), Some(("#000", 4)));
    let d = parse_inline_style("{\"bold\":true,\"color\":\"#123\",\"font_size_px\":12}");
    assert!(d.bold && !d.italic && !d.code);
    assert_eq!(d.color.as_deref(), Some("#123"));
    assert_eq!(d.font_size_px, Some(12));
    let none = parse_inline_style("]");
    assert!(!none.bold && none.color.is_none());
}

#[test]
fn engine_directly() {
    let spans = vec![plain("ab"), plain("cd")];
    assert_eq!(byte_len(&"héllo".to_string()), 6);
    assert!(cuts_fit(&spans, 1, 3));
    let mut bold = InlineStyle::plain();
    bold.bold = true;
    let r = apply_style(&spans, 1, 3, &bold);
    let texts: Vec<&str> = r.iter().map(|s| s.text.as_str()).collect();
    assert_eq!(texts, vec!["a", "b", "c", "d"]);
    assert!(!r[0].style.bold && r[1].style.bold && r[2].style.bold && !r[3].style.bold);
    let wide = vec![plain("é")];
    assert!(!cuts_fit(&wide, 1, 2));
}

#[test]
fn ops_on_documents() {
    let mut doc = Doc::empty();
    let mut ctx = OpsContext::new();
    assert!(!has_table(&doc));
    ops::insert_paragraph(&mut doc, 0, "p", &mut ctx.history);
    ops::insert_table_at(&mut doc, 0, 1, 1, &mut ctx.history);
    assert_eq!(first_table_indices(&doc), Some(1));
    ops::set_cell_text_at(&mut doc, 1, 0, 0, "t", &mut ctx.history);
    ops::delete_row_at(&mut doc, 1, 0, &mut ctx.history);
    ops::update_infobox(&mut doc, 0, None, None, &mut ctx.history);
    ops::update_mcq(&mut doc, 0, None, None, None, &mut ctx.history);
    ops::delete_node(&mut doc, 0, &mut ctx.history);
    assert_eq!(ctx.history.undo_stack.len(), 7);
    match &doc.nodes[0] {
        Node::Table(t) => assert!(t.rows.is_empty()),
        _ => panic!("not a table"),
    }
}

#[test]
fn thread_ids_and_messages() {
    assert_eq!(thread_id(0), "thread-0");
    assert_eq!(thread_id(1234), "thread-1234");
    let mut t = CommentThread::new("x".to_string(), None);
    t.add_message("me".to_string(), "hi".to_string(), 3);
    t.set_resolved(true);
    assert!(t.resolved);
    assert_eq!(t.messages[0].ts_ms, 3);
}
