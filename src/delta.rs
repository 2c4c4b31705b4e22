//! The op-log ("delta") form of a document used by rich-text widgets: an
//! ordered list of inserts. Text inserts carry their inline style; a newline
//! ends a paragraph or, with a header level, a heading; embeds stand for the
//! other kinds of node. Reading and writing the ops as JSON is left to the
//! host; this module converts between ops and documents.
use vstd::prelude::*;
use vstd::string::{StrSliceExecFns, StringExecFns};

use crate::doc::{
    copy_vec, opt_views, plain_style, views, DeepCopy, Doc, InfoBox, InfoBoxView, InlineSpan,
    InlineStyle, MCQBlock, MCQView, Node, NodeView, SpanView, StyleView, Table, TableView,
};

verus! {

pub enum DeltaOp {
    /// A run of text with its style (never a lone newline).
    Text { text: String, style: InlineStyle },
    /// The end of a paragraph, or of a heading of the given level.
    Newline { header: Option<u64> },
    Image(String),
    Formula(String),
    Table(Table),
    Media { key: String, content_type: String },
    Comment(String),
    Mcq(MCQBlock),
    InfoBox(InfoBox),
}

pub enum DeltaView {
    Text { text: Seq<char>, style: StyleView },
    Newline { header: Option<u64> },
    Image(Seq<char>),
    Formula(Seq<char>),
    Table(TableView),
    Media { key: Seq<char>, content_type: Seq<char> },
    Comment(Seq<char>),
    Mcq(MCQView),
    InfoBox(InfoBoxView),
}

impl View for DeltaOp {
    type V = DeltaView;

    open spec fn view(&self) -> DeltaView {
        match self {
            DeltaOp::Text { text, style } => DeltaView::Text { text: text@, style: style@ },
            DeltaOp::Newline { header } => DeltaView::Newline { header: *header },
            DeltaOp::Image(s) => DeltaView::Image(s@),
            DeltaOp::Formula(s) => DeltaView::Formula(s@),
            DeltaOp::Table(t) => DeltaView::Table(t@),
            DeltaOp::Media { key, content_type } => DeltaView::Media { key: key@, content_type: content_type@ },
            DeltaOp::Comment(s) => DeltaView::Comment(s@),
            DeltaOp::Mcq(b) => DeltaView::Mcq(b@),
            DeltaOp::InfoBox(b) => DeltaView::InfoBox(b@),
        }
    }
}

// ---------------------------------------------------------------- export

/// The text insert of a span.
pub open spec fn text_op(s: SpanView) -> DeltaView {
    DeltaView::Text { text: s.text, style: s.style }
}

/// The text inserts of a paragraph or heading: one per span, else one plain
/// insert of the whole text (none for an empty text).
pub open spec fn spans_delta(text: Seq<char>, spans: Option<Seq<SpanView>>) -> Seq<DeltaView> {
    match spans {
        Some(sp) => Seq::new(sp.len(), |k: int| text_op(sp[k])),
        None => if text.len() == 0 {
            Seq::empty()
        } else {
            seq![DeltaView::Text { text, style: plain_style() }]
        },
    }
}

pub open spec fn end_of_block() -> DeltaView {
    DeltaView::Newline { header: None }
}

pub open spec fn node_delta(n: NodeView) -> Seq<DeltaView> {
    match n {
        NodeView::Paragraph { text, spans } => spans_delta(text, spans).push(end_of_block()),
        NodeView::Heading { level, text, spans } => spans_delta(text, spans).push(
            DeltaView::Newline { header: Some(if level <= 6 { level as u64 } else { 6 }) },
        ),
        NodeView::Image { src, .. } => seq![DeltaView::Image(src), end_of_block()],
        NodeView::FormulaInline { tex } => seq![DeltaView::Formula(tex)],
        NodeView::FormulaBlock { tex } => seq![DeltaView::Formula(tex), end_of_block()],
        NodeView::Table(t) => seq![DeltaView::Table(t), end_of_block()],
        NodeView::Media { key, content_type } => seq![DeltaView::Media { key, content_type }, end_of_block()],
        NodeView::CommentAnchor { thread_id } => seq![DeltaView::Comment(thread_id)],
        NodeView::MCQBlock(b) => seq![DeltaView::Mcq(b), end_of_block()],
        NodeView::InfoBox(b) => seq![DeltaView::InfoBox(b), end_of_block()],
    }
}

/// The ops of a sequence of nodes, one node after the other.
pub open spec fn nodes_delta(nodes: Seq<NodeView>) -> Seq<DeltaView>
    decreases nodes.len(),
{
    if nodes.len() == 0 {
        Seq::empty()
    } else {
        nodes_delta(nodes.drop_last()) + node_delta(nodes.last())
    }
}

/// Appends the text inserts of a paragraph or heading.
pub fn push_spans_as_delta(ops: &mut Vec<DeltaOp>, spans: &Option<Vec<InlineSpan>>, fallback_text: &String)
    ensures
        views(final(ops)@) == views(old(ops)@) + spans_delta(fallback_text@, opt_views(*spans)),
{
    match spans {
        Some(sp) => {
            let ghost o0 = views(ops@);
            let ghost sv = views(sp@);
            let mut i: usize = 0;
            while i < sp.len()
                invariant
                    sv == views(sp@),
                    i <= sv.len(),
                    views(ops@) == o0 + Seq::new(i as nat, |k: int| text_op(sv[k])),
                decreases sv.len() - i,
            {
                let s = &sp[i];
                assert(sv[i as int] == sp@[i as int]@);
                let op = DeltaOp::Text { text: s.text.clone(), style: s.style.deep_copy() };
                assert(op@ == text_op(sv[i as int]));
                push_op(ops, op);
                i += 1;
                assert(views(ops@) =~= o0 + Seq::new(i as nat, |k: int| text_op(sv[k])));
            }
        },
        None => {
            if !fallback_text.as_str().is_empty() {
                push_op(ops, DeltaOp::Text { text: fallback_text.clone(), style: InlineStyle::plain() });
            }
            assert(views(ops@) =~= views(old(ops)@) + spans_delta(fallback_text@, opt_views(*spans)));
        },
    }
}

fn push_op(ops: &mut Vec<DeltaOp>, op: DeltaOp)
    ensures
        views(final(ops)@) == views(old(ops)@).push(op@),
{
    ops.push(op);
    assert(views(ops@) =~= views(old(ops)@).push(op@));
}

fn push_node_delta(ops: &mut Vec<DeltaOp>, n: &Node)
    ensures
        views(final(ops)@) == views(old(ops)@) + node_delta(n@),
{
    let ghost o0 = views(ops@);
    match n {
        Node::Paragraph { text, spans } => {
            push_spans_as_delta(ops, spans, text);
            push_op(ops, DeltaOp::Newline { header: None });
        },
        Node::Heading { level, text, spans } => {
            push_spans_as_delta(ops, spans, text);
            let h: u64 = if *level <= 6 {
                *level as u64
            } else {
                6
            };
            push_op(ops, DeltaOp::Newline { header: Some(h) });
        },
        Node::Image { src, .. } => {
            push_op(ops, DeltaOp::Image(src.clone()));
            push_op(ops, DeltaOp::Newline { header: None });
        },
        Node::FormulaInline { tex } => {
            push_op(ops, DeltaOp::Formula(tex.clone()));
        },
        Node::FormulaBlock { tex } => {
            push_op(ops, DeltaOp::Formula(tex.clone()));
            push_op(ops, DeltaOp::Newline { header: None });
        },
        Node::Table(t) => {
            push_op(ops, DeltaOp::Table(t.deep_copy()));
            push_op(ops, DeltaOp::Newline { header: None });
        },
        Node::Media { key, content_type } => {
            push_op(ops, DeltaOp::Media { key: key.clone(), content_type: content_type.clone() });
            push_op(ops, DeltaOp::Newline { header: None });
        },
        Node::CommentAnchor { thread_id } => {
            push_op(ops, DeltaOp::Comment(thread_id.clone()));
        },
        Node::MCQBlock(b) => {
            push_op(ops, DeltaOp::Mcq(b.deep_copy()));
            push_op(ops, DeltaOp::Newline { header: None });
        },
        Node::InfoBox(b) => {
            push_op(ops, DeltaOp::InfoBox(b.deep_copy()));
            push_op(ops, DeltaOp::Newline { header: None });
        },
    }
    assert(views(ops@) =~= o0 + node_delta(n@));
}

/// The ops of a document.
pub fn to_quill_delta(doc: &Doc) -> (r: Vec<DeltaOp>)
    ensures
        views(r@) == nodes_delta(doc@.nodes),
{
    let mut ops: Vec<DeltaOp> = Vec::new();
    let ghost nv = doc@.nodes;
    let mut i: usize = 0;
    while i < doc.nodes.len()
        invariant
            nv == doc@.nodes,
            i <= nv.len(),
            views(ops@) == nodes_delta(nv.take(i as int)),
        decreases nv.len() - i,
    {
        push_node_delta(&mut ops, &doc.nodes[i]);
        proof {
            assert(nv.take(i + 1).drop_last() =~= nv.take(i as int));
        }
        i += 1;
    }
    assert(nv.take(i as int) =~= nv);
    ops
}

// ---------------------------------------------------------------- import

/// What reading ops has built so far: the finished nodes, and the text,
/// spans and header level of the block under way.
pub struct ReadState {
    pub nodes: Seq<NodeView>,
    pub text: Seq<char>,
    pub spans: Seq<SpanView>,
    pub header: Option<u8>,
}

pub open spec fn initial_state() -> ReadState {
    ReadState { nodes: Seq::empty(), text: Seq::empty(), spans: Seq::empty(), header: None }
}

/// The block under way, ended: a heading if a level was set, else a
/// paragraph; it keeps its spans if it has any.
pub open spec fn flushed(st: ReadState) -> ReadState {
    let spans = if st.spans.len() == 0 { None } else { Some(st.spans) };
    let node = match st.header {
        Some(h) => NodeView::Heading { level: h, text: st.text, spans },
        None => NodeView::Paragraph { text: st.text, spans },
    };
    ReadState { nodes: st.nodes.push(node), text: Seq::empty(), spans: Seq::empty(), header: None }
}

/// A header value from an op as a level: its low byte, clamped to 1..=6.
pub open spec fn header_level(h: u64) -> u8 {
    let b = (h % 256) as u8;
    if b < 1 {
        1
    } else if b > 6 {
        6
    } else {
        b
    }
}

pub open spec fn with_node(st: ReadState, n: NodeView) -> ReadState {
    ReadState { nodes: st.nodes.push(n), ..st }
}

/// The state after one op. Embeds end the block under way (comments do
/// not); multiple-choice and info-box embeds are not read back.
pub open spec fn step(st: ReadState, op: DeltaView) -> ReadState {
    match op {
        DeltaView::Text { text, style } => ReadState {
            text: st.text + text,
            spans: st.spans.push(SpanView { text, style }),
            ..st
        },
        DeltaView::Newline { header } => flushed(
            match header {
                Some(h) => ReadState { header: Some(header_level(h)), ..st },
                None => st,
            },
        ),
        DeltaView::Image(src) => with_node(flushed(st), NodeView::Image { src, alt: Seq::empty() }),
        DeltaView::Formula(tex) => with_node(flushed(st), NodeView::FormulaInline { tex }),
        DeltaView::Table(t) => with_node(flushed(st), NodeView::Table(t)),
        DeltaView::Media { key, content_type } => with_node(flushed(st), NodeView::Media { key, content_type }),
        DeltaView::Comment(id) => with_node(st, NodeView::CommentAnchor { thread_id: id }),
        DeltaView::Mcq(_) => st,
        DeltaView::InfoBox(_) => st,
    }
}

pub open spec fn run(ops: Seq<DeltaView>) -> ReadState
    decreases ops.len(),
{
    if ops.len() == 0 {
        initial_state()
    } else {
        step(run(ops.drop_last()), ops.last())
    }
}

/// The nodes read from ops: a block left under way at the end is ended too.
pub open spec fn delta_nodes(ops: Seq<DeltaView>) -> Seq<NodeView> {
    let st = run(ops);
    if st.text.len() > 0 || st.spans.len() > 0 {
        flushed(st).nodes
    } else {
        st.nodes
    }
}

/// Ends the block under way, as a heading if a level was set, else as a
/// paragraph.
pub fn flush_para_or_heading(
    nodes: &mut Vec<Node>,
    current_text: &mut String,
    current_spans: &mut Vec<InlineSpan>,
    current_header: &mut Option<u8>,
)
    ensures
        ({
            let st = flushed(
                ReadState {
                    nodes: views(old(nodes)@),
                    text: old(current_text)@,
                    spans: views(old(current_spans)@),
                    header: *old(current_header),
                },
            );
            &&& views(final(nodes)@) == st.nodes
            &&& final(current_text)@ == st.text
            &&& views(final(current_spans)@) == st.spans
            &&& *final(current_header) == st.header
        }),
{
    let spans = if current_spans.len() == 0 {
        None
    } else {
        Some(copy_vec(current_spans))
    };
    let mut text = String::new();
    std::mem::swap(&mut text, current_text);
    let node = match *current_header {
        Some(h) => Node::Heading { level: h, text, spans },
        None => Node::Paragraph { text, spans },
    };
    *current_header = None;
    nodes.push(node);
    current_spans.clear();
    assert(views(nodes@) =~= views(old(nodes)@).push(node@));
    assert(views(current_spans@) =~= Seq::<SpanView>::empty());
}

fn push_node(nodes: &mut Vec<Node>, n: Node)
    ensures
        views(final(nodes)@) == views(old(nodes)@).push(n@),
{
    nodes.push(n);
    assert(views(nodes@) =~= views(old(nodes)@).push(n@));
}

/// A document read from ops; it has no comment threads.
pub fn from_quill_delta(ops: &Vec<DeltaOp>) -> (d: Doc)
    ensures
        d@.nodes == delta_nodes(views(ops@)),
        d@.threads.len() == 0,
{
    let ghost ov = views(ops@);
    let mut nodes: Vec<Node> = Vec::new();
    let mut text = String::new();
    let mut spans: Vec<InlineSpan> = Vec::new();
    let mut header: Option<u8> = None;
    let mut i: usize = 0;
    assert(views(nodes@) =~= Seq::<NodeView>::empty());
    assert(views(spans@) =~= Seq::<SpanView>::empty());
    while i < ops.len()
        invariant
            ov == views(ops@),
            i <= ov.len(),
            run(ov.take(i as int)) == (ReadState {
                nodes: views(nodes@),
                text: text@,
                spans: views(spans@),
                header,
            }),
        decreases ov.len() - i,
    {
        proof {
            assert(ov.take(i + 1).drop_last() =~= ov.take(i as int));
        }
        match &ops[i] {
            DeltaOp::Text { text: t, style } => {
                text.append(t.as_str());
                let sp = InlineSpan { text: t.clone(), style: style.deep_copy() };
                spans.push(sp);
                assert(views(spans@) =~= run(ov.take(i as int)).spans.push(sp@));
            },
            DeltaOp::Newline { header: h } => {
                match h {
                    Some(v) => {
                        let b = (*v % 256) as u8;
                        header = Some(
                            if b < 1 {
                                1
                            } else if b > 6 {
                                6
                            } else {
                                b
                            },
                        );
                    },
                    None => {},
                }
                flush_para_or_heading(&mut nodes, &mut text, &mut spans, &mut header);
            },
            DeltaOp::Image(src) => {
                flush_para_or_heading(&mut nodes, &mut text, &mut spans, &mut header);
                push_node(&mut nodes, Node::Image { src: src.clone(), alt: String::new() });
            },
            DeltaOp::Formula(tex) => {
                flush_para_or_heading(&mut nodes, &mut text, &mut spans, &mut header);
                push_node(&mut nodes, Node::FormulaInline { tex: tex.clone() });
            },
            DeltaOp::Table(t) => {
                flush_para_or_heading(&mut nodes, &mut text, &mut spans, &mut header);
                push_node(&mut nodes, Node::Table(t.deep_copy()));
            },
            DeltaOp::Media { key, content_type } => {
                flush_para_or_heading(&mut nodes, &mut text, &mut spans, &mut header);
                push_node(&mut nodes, Node::Media { key: key.clone(), content_type: content_type.clone() });
            },
            DeltaOp::Comment(id) => {
                push_node(&mut nodes, Node::CommentAnchor { thread_id: id.clone() });
            },
            DeltaOp::Mcq(_) => {},
            DeltaOp::InfoBox(_) => {},
        }
        i += 1;
    }
    assert(ov.take(i as int) =~= ov);
    if text.as_str().unicode_len() > 0 || spans.len() > 0 {
        flush_para_or_heading(&mut nodes, &mut text, &mut spans, &mut header);
    }
    let d = Doc { nodes, threads: Vec::new() };
    assert(d@.threads =~= Seq::empty());
    d
}

} // verus!
