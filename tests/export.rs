use smart_rte_core::delta::{from_quill_delta, DeltaOp};
use smart_rte_core::doc::{InlineSpan, InlineStyle, MCQOption, Node};
use smart_rte_core::import_export::{
    escape_md_cell_text, has_span_cells, render_spans_html, render_spans_md,
    render_text_with_inline_formulas, to_html, to_markdown,
};
use smart_rte_core::EditorCore;

fn para(text: &str) -> Node {
    Node::Paragraph { text: text.to_string(), spans: None }
}

#[test]
fn html_paragraph_with_formula_and_escapes() {
    let mut core = EditorCore::new_empty();
    core.doc.nodes.push(para("a<b $x$ c"));
    assert_eq!(
        core.to_html(),
        "<div class=\"doc\">\n  <p>a&lt;b <span class=\"formula-inline\">x</span> c</p>\n</div>"
    );
}

#[test]
fn inline_formula_rendering() {
    assert_eq!(render_text_with_inline_formulas("cost $5"), "cost $5");
    assert_eq!(
        render_text_with_inline_formulas("$a$$b$&"),
        "<span class=\"formula-inline\">a</span><span class=\"formula-inline\">b</span>&amp;"
    );
    assert_eq!(render_text_with_inline_formulas(""), "");
}

#[test]
fn html_heading_level_is_clamped() {
    let mut core = EditorCore::new_empty();
    core.doc.nodes.push(Node::Heading { level: 9, text: "T".to_string(), spans: None });
    assert_eq!(to_html(&core.doc), "<div class=\"doc\">\n  <h6>T</h6>\n</div>");
}

#[test]
fn html_table_skips_placeholders() {
    let mut core = EditorCore::new_empty();
    core.insert_table(1, 2);
    core.set_cell_text(0, 0, "x&y");
    core.merge_cells(0, 0, 0, 1);
    core.set_cell_style(0, 0, "{\"background\":\"#a\\\"b\"}");
    core.set_row_height(0, 30);
    assert_eq!(
        core.to_html(),
        "<div class=\"doc\">\n  <table data-smart>\n    <tr style=\"height:30px\">\n      <td colspan=\"2\" style=\"background:#a&quot;b\">x&amp;y</td>\n    </tr>\n  </table>\n</div>"
    );
}

#[test]
fn html_blocks() {
    let mut core = EditorCore::new_empty();
    core.insert_image_at(0, "a.png", "x\"y");
    core.insert_formula_block("x<1");
    core.insert_infobox("info", "i>j");
    core.doc.nodes.push(Node::CommentAnchor { thread_id: "thread-1".to_string() });
    core.doc.nodes.push(Node::Media { key: "k".to_string(), content_type: "video/mp4".to_string() });
    assert_eq!(
        core.to_html(),
        "<div class=\"doc\">\n  <img src=\"a.png\" alt=\"x&quot;y\"/>\n  <div class=\"formula-block\">x&lt;1</div>\n  <div class=\"info-box info\">i&gt;j</div>\n  <sup data-comment=\"thread-1\"></sup>\n  <div data-media key=\"k\" type=\"video/mp4\"></div>\n</div>"
    );
}

#[test]
fn html_mcq() {
    let mut core = EditorCore::new_empty();
    core.insert_mcq(false);
    core.update_mcq(0, "Q<", Some(vec![MCQOption { text: "Yes".to_string(), correct: true }]), true);
    assert_eq!(
        core.to_html(),
        "<div class=\"doc\">\n  <div class=\"mcq\">\n    <div class=\"q\">Q&lt;</div>\n    <ul>\n      <li data-correct=\"true\">Yes</li>\n    </ul>\n  </div>\n</div>"
    );
}

fn styled(text: &str, f: impl Fn(&mut InlineStyle)) -> InlineSpan {
    let mut style = InlineStyle::default();
    f(&mut style);
    InlineSpan { text: text.to_string(), style }
}

#[test]
fn span_wrapping_order_html() {
    let spans = vec![
        styled("k", |s| {
            s.bold = true;
            s.code = true;
            s.link = Some("u\"".to_string());
            s.color = Some("red".to_string());
            s.font_size_px = Some(14);
        }),
        styled("<", |s| {
            s.italic = true;
            s.underline = true;
            s.highlight = Some("y".to_string());
        }),
    ];
    assert_eq!(
        render_spans_html(&spans),
        "<a href=\"u&quot;\"><span style=\"color:red;font-size:14px\"><strong><code>k</code></strong></span></a><span style=\"background:y\"><em><u>&lt;</u></em></span>"
    );
}

#[test]
fn span_wrapping_order_md() {
    let spans = vec![
        styled("a_b", |s| {
            s.bold = true;
            s.italic = true;
        }),
        styled("*", |s| {
            s.code = true;
            s.underline = true;
            s.link = Some("http://x".to_string());
            s.font_size_px = Some(100);
        }),
    ];
    assert_eq!(
        render_spans_md(&spans),
        "_**a\\_b**_[<span style=\"font-size:100px\"><u>`\\*`</u></span>](http://x)"
    );
}

#[test]
fn markdown_blocks_and_trailing_newline() {
    let mut core = EditorCore::new_empty();
    core.doc.nodes.push(para("a*b"));
    core.doc.nodes.push(Node::Heading { level: 2, text: "H".to_string(), spans: None });
    core.insert_image_at(5, "s.png", "pic");
    core.insert_formula_inline("x");
    core.insert_formula_block("y");
    core.insert_infobox("warning", "w");
    core.doc.nodes.push(Node::CommentAnchor { thread_id: "t".to_string() });
    assert_eq!(
        core.to_markdown(),
        "a*b\n\n## H\n\n![pic](s.png)\n\n$x$\n\n$$\ny\n$$\n\n> [warning] w\n"
    );
}

#[test]
fn markdown_of_empty_document() {
    let core = EditorCore::new_empty();
    assert_eq!(core.to_markdown(), "\n");
}

#[test]
fn markdown_mcq() {
    let mut core = EditorCore::new_empty();
    core.insert_mcq(false);
    assert_eq!(
        to_markdown(&core.doc),
        "**MCQ:** New question\n- A. Option A\n- B. Option B\n- C. Option C\n- D. Option D\n"
    );
    core.update_mcq(0, "Q", Some(vec![MCQOption { text: "Yes".to_string(), correct: true }]), false);
    assert_eq!(core.to_markdown(), "**MCQ:** Q\n- A. Yes (\u{2714})\n");
}

#[test]
fn markdown_gfm_table() {
    let mut core = EditorCore::new_empty();
    core.insert_table(2, 2);
    core.set_cell_text(0, 0, " a|b ");
    core.set_cell_text(0, 1, "c");
    core.set_cell_text(1, 1, "d\\");
    assert_eq!(core.to_markdown(), "| a\\|b | c |\n| --- | --- |\n|  | d\\\\ |\n");
    assert_eq!(escape_md_cell_text("|\\x"), "\\|\\\\x");
}

#[test]
fn markdown_spanning_table_falls_back_to_html() {
    let mut core = EditorCore::new_empty();
    core.insert_table(1, 2);
    core.merge_cells(0, 0, 0, 1);
    match &core.doc.nodes[0] {
        Node::Table(t) => assert!(has_span_cells(t)),
        _ => panic!("not a table"),
    }
    assert_eq!(
        core.to_markdown(),
        "<div class=\"doc\">\n  <table data-smart>\n    <tr>\n      <td colspan=\"2\"></td>\n    </tr>\n  </table>\n</div>\n"
    );
}

#[test]
fn markdown_uses_spans() {
    let mut core = EditorCore::new_empty();
    core.insert_paragraph(0, "ab");
    core.set_text_style(0, 0, 1, "{\"bold\":true}");
    assert_eq!(core.to_markdown(), "**a**b\n");
}

#[test]
fn delta_export() {
    let mut core = EditorCore::new_empty();
    core.doc.nodes.push(para("hi"));
    core.doc.nodes.push(Node::Heading { level: 9, text: "T".to_string(), spans: None });
    core.insert_image_at(9, "src", "alt");
    core.insert_formula_inline("f");
    core.doc.nodes.push(para(""));
    let ops = core.to_delta();
    assert_eq!(ops.len(), 8);
    assert!(matches!(&ops[0], DeltaOp::Text { text, style } if text == "hi" && !style.bold));
    assert!(matches!(&ops[1], DeltaOp::Newline { header: None }));
    assert!(matches!(&ops[2], DeltaOp::Text { text, .. } if text == "T"));
    assert!(matches!(&ops[3], DeltaOp::Newline { header: Some(6) }));
    assert!(matches!(&ops[4], DeltaOp::Image(s) if s == "src"));
    assert!(matches!(&ops[5], DeltaOp::Newline { header: None }));
    assert!(matches!(&ops[6], DeltaOp::Formula(s) if s == "f"));
    assert!(matches!(&ops[7], DeltaOp::Newline { header: None }));
}

#[test]
fn delta_import() {
    let mut bold = InlineStyle::default();
    bold.bold = true;
    let ops = vec![
        DeltaOp::Text { text: "a".to_string(), style: InlineStyle::default() },
        DeltaOp::Text { text: "b".to_string(), style: bold },
        DeltaOp::Newline { header: Some(300) },
        DeltaOp::Comment("t1".to_string()),
        DeltaOp::Image("i.png".to_string()),
        DeltaOp::Text { text: "c".to_string(), style: InlineStyle::default() },
        DeltaOp::Newline { header: Some(0) },
        DeltaOp::Text { text: "tail".to_string(), style: InlineStyle::default() },
    ];
    let doc = from_quill_delta(&ops);
    assert_eq!(doc.nodes.len(), 6);
    match &doc.nodes[0] {
        Node::Heading { level, text, spans: Some(sp) } => {
            assert_eq!(*level, 6);
            assert_eq!(text, "ab");
            assert_eq!(sp.len(), 2);
            assert!(sp[1].style.bold);
        }
        _ => panic!("expected a heading"),
    }
    assert!(matches!(&doc.nodes[1], Node::CommentAnchor { thread_id } if thread_id == "t1"));
    assert!(matches!(&doc.nodes[2], Node::Paragraph { text, spans: None } if text.is_empty()));
    assert!(matches!(&doc.nodes[3], Node::Image { src, alt } if src == "i.png" && alt.is_empty()));
    assert!(matches!(&doc.nodes[4], Node::Heading { level: 1, text, .. } if text == "c"));
    assert!(matches!(&doc.nodes[5], Node::Paragraph { text, spans: Some(_) } if text == "tail"));

    let mut core = EditorCore::new_empty();
    core.from_delta(&ops);
    assert_eq!(core.doc.nodes.len(), 6);
    core.undo();
    assert_eq!(core.doc.nodes.len(), 0);
}
