//! Document tree structures, their mathematical models and deep copies.
use vstd::prelude::*;

use crate::comments::{CommentThread, ThreadView};

verus! {

/// Default pixel width given to a newly created table column.
pub const DEFAULT_COLUMN_WIDTH: u32 = 120;

/// The model of an optional string.
pub open spec fn opt_str(o: Option<String>) -> Option<Seq<char>> {
    match o {
        Some(s) => Some(s@),
        None => None,
    }
}

/// Copies an optional string.
pub fn copy_opt_str(o: &Option<String>) -> (r: Option<String>)
    ensures
        opt_str(r) == opt_str(*o),
{
    match o {
        Some(s) => Some(s.clone()),
        None => None,
    }
}

/// A value that can be deep-copied into one with the same model.
pub trait DeepCopy: View + Sized {
    fn deep_copy(&self) -> (r: Self)
        ensures
            r@ == self@,
    ;
}

/// The models of the items of a sequence.
pub open spec fn views<T: View>(s: Seq<T>) -> Seq<T::V> {
    s.map_values(|x: T| x@)
}

/// Copies a vector item by item.
pub fn copy_vec<T: DeepCopy>(v: &Vec<T>) -> (r: Vec<T>)
    ensures
        views(r@) == views(v@),
{
    let mut r: Vec<T> = Vec::new();
    let mut i: usize = 0;
    while i < v.len()
        invariant
            i <= v@.len(),
            r@.len() == i,
            forall|j: int| 0 <= j < i ==> (#[trigger] r@[j])@ == v@[j]@,
        decreases v@.len() - i,
    {
        let x = v[i].deep_copy();
        r.push(x);
        i += 1;
    }
    assert(views(r@) =~= views(v@));
    r
}

/// Copies an optional vector item by item.
pub fn copy_opt_vec<T: DeepCopy>(o: &Option<Vec<T>>) -> (r: Option<Vec<T>>)
    ensures
        opt_views(r) == opt_views(*o),
{
    match o {
        Some(v) => Some(copy_vec(v)),
        None => None,
    }
}

/// The model of an optional vector.
pub open spec fn opt_views<T: View>(o: Option<Vec<T>>) -> Option<Seq<T::V>> {
    match o {
        Some(v) => Some(views(v@)),
        None => None,
    }
}

// ---------------------------------------------------------------- inline style

#[derive(Debug, Clone, Default)]
pub struct InlineStyle {
    pub bold: bool,
    pub italic: bool,
    pub underline: bool,
    pub code: bool,
    pub link: Option<String>,
    /// CSS color hex or named color for foreground text color
    pub color: Option<String>,
    /// CSS color hex or named color for text highlight (background)
    pub highlight: Option<String>,
    /// Optional explicit font size in pixels
    pub font_size_px: Option<u32>,
}

pub struct StyleView {
    pub bold: bool,
    pub italic: bool,
    pub underline: bool,
    pub code: bool,
    pub link: Option<Seq<char>>,
    pub color: Option<Seq<char>>,
    pub highlight: Option<Seq<char>>,
    pub font_size_px: Option<u32>,
}

impl View for InlineStyle {
    type V = StyleView;

    open spec fn view(&self) -> StyleView {
        StyleView {
            bold: self.bold,
            italic: self.italic,
            underline: self.underline,
            code: self.code,
            link: opt_str(self.link),
            color: opt_str(self.color),
            highlight: opt_str(self.highlight),
            font_size_px: self.font_size_px,
        }
    }
}

impl DeepCopy for InlineStyle {
    fn deep_copy(&self) -> (r: Self) {
        InlineStyle {
            bold: self.bold,
            italic: self.italic,
            underline: self.underline,
            code: self.code,
            link: copy_opt_str(&self.link),
            color: copy_opt_str(&self.color),
            highlight: copy_opt_str(&self.highlight),
            font_size_px: self.font_size_px,
        }
    }
}

/// The style with every flag off and no optional field set.
pub open spec fn plain_style() -> StyleView {
    StyleView {
        bold: false,
        italic: false,
        underline: false,
        code: false,
        link: None,
        color: None,
        highlight: None,
        font_size_px: None,
    }
}

impl InlineStyle {
    pub fn plain() -> (r: InlineStyle)
        ensures
            r@ == plain_style(),
    {
        InlineStyle {
            bold: false,
            italic: false,
            underline: false,
            code: false,
            link: None,
            color: None,
            highlight: None,
            font_size_px: None,
        }
    }
}

#[derive(Debug, Clone, Default)]
pub struct InlineSpan {
    pub text: String,
    pub style: InlineStyle,
}

pub struct SpanView {
    pub text: Seq<char>,
    pub style: StyleView,
}

impl View for InlineSpan {
    type V = SpanView;

    open spec fn view(&self) -> SpanView {
        SpanView { text: self.text@, style: self.style@ }
    }
}

impl DeepCopy for InlineSpan {
    fn deep_copy(&self) -> (r: Self) {
        InlineSpan { text: self.text.clone(), style: self.style.deep_copy() }
    }
}

// ---------------------------------------------------------------- tables

#[derive(Debug, Clone)]
pub struct BorderStyle {
    pub color: String,
    pub width_px: u32,
}

pub struct BorderView {
    pub color: Seq<char>,
    pub width_px: u32,
}

impl View for BorderStyle {
    type V = BorderView;

    open spec fn view(&self) -> BorderView {
        BorderView { color: self.color@, width_px: self.width_px }
    }
}

impl DeepCopy for BorderStyle {
    fn deep_copy(&self) -> (r: Self) {
        BorderStyle { color: self.color.clone(), width_px: self.width_px }
    }
}

pub open spec fn opt_border(o: Option<BorderStyle>) -> Option<BorderView> {
    match o {
        Some(b) => Some(b@),
        None => None,
    }
}

#[derive(Debug, Clone, Default)]
pub struct CellStyle {
    pub background: Option<String>,
    pub border: Option<BorderStyle>,
}

pub struct CellStyleView {
    pub background: Option<Seq<char>>,
    pub border: Option<BorderView>,
}

impl View for CellStyle {
    type V = CellStyleView;

    open spec fn view(&self) -> CellStyleView {
        CellStyleView { background: opt_str(self.background), border: opt_border(self.border) }
    }
}

impl DeepCopy for CellStyle {
    fn deep_copy(&self) -> (r: Self) {
        let border = match &self.border {
            Some(b) => Some(b.deep_copy()),
            None => None,
        };
        CellStyle { background: copy_opt_str(&self.background), border }
    }
}

/// Field-by-field merge of cell styles: a field present in `incoming` wins.
pub open spec fn merged_cell_style(cur: CellStyleView, incoming: CellStyleView) -> CellStyleView {
    CellStyleView {
        background: if incoming.background is Some {
            incoming.background
        } else {
            cur.background
        },
        border: if incoming.border is Some {
            incoming.border
        } else {
            cur.border
        },
    }
}

impl CellStyle {
    pub fn merge(&mut self, other: &CellStyle)
        ensures
            final(self)@ == merged_cell_style(old(self)@, other@),
    {
        if other.background.is_some() {
            self.background = copy_opt_str(&other.background);
        }
        match &other.border {
            Some(b) => {
                self.border = Some(b.deep_copy());
            },
            None => {},
        }
    }
}

#[derive(Debug, Clone)]
pub struct TableCell {
    pub text: String,
    pub colspan: u32,
    pub rowspan: u32,
    pub style: CellStyle,
    /// When true, this cell is a placeholder covered by a spanning cell.
    /// The renderer should skip drawing it.
    pub placeholder: bool,
    /// Optional inline spans for rich text inside the cell
    pub spans: Option<Vec<InlineSpan>>,
}

pub struct CellView {
    pub text: Seq<char>,
    pub colspan: u32,
    pub rowspan: u32,
    pub style: CellStyleView,
    pub placeholder: bool,
    pub spans: Option<Seq<SpanView>>,
}

impl View for TableCell {
    type V = CellView;

    open spec fn view(&self) -> CellView {
        CellView {
            text: self.text@,
            colspan: self.colspan,
            rowspan: self.rowspan,
            style: self.style@,
            placeholder: self.placeholder,
            spans: opt_views(self.spans),
        }
    }
}

impl DeepCopy for TableCell {
    fn deep_copy(&self) -> (r: Self) {
        TableCell {
            text: self.text.clone(),
            colspan: self.colspan,
            rowspan: self.rowspan,
            style: self.style.deep_copy(),
            placeholder: self.placeholder,
            spans: copy_opt_vec(&self.spans),
        }
    }
}

/// A fresh cell: empty text, one by one, no style, not a placeholder.
pub open spec fn default_cell() -> CellView {
    CellView {
        text: Seq::empty(),
        colspan: 1,
        rowspan: 1,
        style: CellStyleView { background: None, border: None },
        placeholder: false,
        spans: None,
    }
}

impl Default for TableCell {
    fn default() -> (r: Self)
        ensures
            r@ == default_cell(),
    {
        TableCell {
            text: String::new(),
            colspan: 1,
            rowspan: 1,
            style: CellStyle { background: None, border: None },
            placeholder: false,
            spans: None,
        }
    }
}

#[derive(Debug, Clone, Default)]
pub struct TableRow {
    pub cells: Vec<TableCell>,
    /// Optional fixed row height in pixels
    pub height_px: Option<u32>,
}

pub struct RowView {
    pub cells: Seq<CellView>,
    pub height_px: Option<u32>,
}

impl View for TableRow {
    type V = RowView;

    open spec fn view(&self) -> RowView {
        RowView { cells: views(self.cells@), height_px: self.height_px }
    }
}

impl DeepCopy for TableRow {
    fn deep_copy(&self) -> (r: Self) {
        TableRow { cells: copy_vec(&self.cells), height_px: self.height_px }
    }
}

#[derive(Debug, Clone, Default)]
pub struct Table {
    pub rows: Vec<TableRow>,
    pub freeze_header: bool,
    pub freeze_first_col: bool,
    /// Optional per-column widths in pixels. If empty, use auto layout.
    pub column_widths: Vec<u32>,
}

pub struct TableView {
    pub rows: Seq<RowView>,
    pub freeze_header: bool,
    pub freeze_first_col: bool,
    pub column_widths: Seq<u32>,
}

impl View for Table {
    type V = TableView;

    open spec fn view(&self) -> TableView {
        TableView {
            rows: views(self.rows@),
            freeze_header: self.freeze_header,
            freeze_first_col: self.freeze_first_col,
            column_widths: self.column_widths@,
        }
    }
}

impl DeepCopy for Table {
    fn deep_copy(&self) -> (r: Self) {
        let mut widths: Vec<u32> = Vec::new();
        let mut i: usize = 0;
        while i < self.column_widths.len()
            invariant
                i <= self.column_widths@.len(),
                widths@ == self.column_widths@.subrange(0, i as int),
            decreases self.column_widths@.len() - i,
        {
            widths.push(self.column_widths[i]);
            i += 1;
            assert(widths@ =~= self.column_widths@.subrange(0, i as int));
        }
        assert(self.column_widths@.subrange(0, i as int) =~= self.column_widths@);
        Table {
            rows: copy_vec(&self.rows),
            freeze_header: self.freeze_header,
            freeze_first_col: self.freeze_first_col,
            column_widths: widths,
        }
    }
}

// ---------------------------------------------------------------- blocks

#[derive(Debug, Clone, Default)]
pub struct MCQOption {
    pub text: String,
    pub correct: bool,
}

pub struct OptionView {
    pub text: Seq<char>,
    pub correct: bool,
}

impl View for MCQOption {
    type V = OptionView;

    open spec fn view(&self) -> OptionView {
        OptionView { text: self.text@, correct: self.correct }
    }
}

impl DeepCopy for MCQOption {
    fn deep_copy(&self) -> (r: Self) {
        MCQOption { text: self.text.clone(), correct: self.correct }
    }
}

#[derive(Debug, Clone, Default)]
pub struct MCQBlock {
    pub question: String,
    pub options: Vec<MCQOption>,
    pub multiple: bool,
}

pub struct MCQView {
    pub question: Seq<char>,
    pub options: Seq<OptionView>,
    pub multiple: bool,
}

impl View for MCQBlock {
    type V = MCQView;

    open spec fn view(&self) -> MCQView {
        MCQView { question: self.question@, options: views(self.options@), multiple: self.multiple }
    }
}

impl DeepCopy for MCQBlock {
    fn deep_copy(&self) -> (r: Self) {
        MCQBlock {
            question: self.question.clone(),
            options: copy_vec(&self.options),
            multiple: self.multiple,
        }
    }
}

#[derive(Debug, Clone, Default)]
pub struct InfoBox {
    /// One of info, warning, success, danger.
    pub kind: String,
    pub text: String,
}

pub struct InfoBoxView {
    pub kind: Seq<char>,
    pub text: Seq<char>,
}

impl View for InfoBox {
    type V = InfoBoxView;

    open spec fn view(&self) -> InfoBoxView {
        InfoBoxView { kind: self.kind@, text: self.text@ }
    }
}

impl DeepCopy for InfoBox {
    fn deep_copy(&self) -> (r: Self) {
        InfoBox { kind: self.kind.clone(), text: self.text.clone() }
    }
}

// ---------------------------------------------------------------- nodes

#[derive(Debug, Clone)]
pub enum Node {
    Paragraph { text: String, spans: Option<Vec<InlineSpan>> },
    Heading { level: u8, text: String, spans: Option<Vec<InlineSpan>> },
    Table(Table),
    Image { src: String, alt: String },
    Media { key: String, content_type: String },
    FormulaInline { tex: String },
    FormulaBlock { tex: String },
    MCQBlock(MCQBlock),
    InfoBox(InfoBox),
    CommentAnchor { thread_id: String },
}

pub enum NodeView {
    Paragraph { text: Seq<char>, spans: Option<Seq<SpanView>> },
    Heading { level: u8, text: Seq<char>, spans: Option<Seq<SpanView>> },
    Table(TableView),
    Image { src: Seq<char>, alt: Seq<char> },
    Media { key: Seq<char>, content_type: Seq<char> },
    FormulaInline { tex: Seq<char> },
    FormulaBlock { tex: Seq<char> },
    MCQBlock(MCQView),
    InfoBox(InfoBoxView),
    CommentAnchor { thread_id: Seq<char> },
}

impl View for Node {
    type V = NodeView;

    open spec fn view(&self) -> NodeView {
        match self {
            Node::Paragraph { text, spans } => NodeView::Paragraph {
                text: text@,
                spans: opt_views(*spans),
            },
            Node::Heading { level, text, spans } => NodeView::Heading {
                level: *level,
                text: text@,
                spans: opt_views(*spans),
            },
            Node::Table(t) => NodeView::Table(t@),
            Node::Image { src, alt } => NodeView::Image { src: src@, alt: alt@ },
            Node::Media { key, content_type } => NodeView::Media {
                key: key@,
                content_type: content_type@,
            },
            Node::FormulaInline { tex } => NodeView::FormulaInline { tex: tex@ },
            Node::FormulaBlock { tex } => NodeView::FormulaBlock { tex: tex@ },
            Node::MCQBlock(b) => NodeView::MCQBlock(b@),
            Node::InfoBox(b) => NodeView::InfoBox(b@),
            Node::CommentAnchor { thread_id } => NodeView::CommentAnchor { thread_id: thread_id@ },
        }
    }
}

impl DeepCopy for Node {
    fn deep_copy(&self) -> (r: Self) {
        match self {
            Node::Paragraph { text, spans } => Node::Paragraph {
                text: text.clone(),
                spans: copy_opt_vec(spans),
            },
            Node::Heading { level, text, spans } => Node::Heading {
                level: *level,
                text: text.clone(),
                spans: copy_opt_vec(spans),
            },
            Node::Table(t) => Node::Table(t.deep_copy()),
            Node::Image { src, alt } => Node::Image { src: src.clone(), alt: alt.clone() },
            Node::Media { key, content_type } => Node::Media {
                key: key.clone(),
                content_type: content_type.clone(),
            },
            Node::FormulaInline { tex } => Node::FormulaInline { tex: tex.clone() },
            Node::FormulaBlock { tex } => Node::FormulaBlock { tex: tex.clone() },
            Node::MCQBlock(b) => Node::MCQBlock(b.deep_copy()),
            Node::InfoBox(b) => Node::InfoBox(b.deep_copy()),
            Node::CommentAnchor { thread_id } => Node::CommentAnchor {
                thread_id: thread_id.clone(),
            },
        }
    }
}

impl Default for Node {
    fn default() -> (r: Self)
        ensures
            r@ == (NodeView::Paragraph { text: Seq::empty(), spans: None }),
    {
        Node::Paragraph { text: String::new(), spans: None }
    }
}

// ---------------------------------------------------------------- document

#[derive(Debug, Clone, Default)]
pub struct Doc {
    pub nodes: Vec<Node>,
    pub threads: Vec<CommentThread>,
}

pub struct DocView {
    pub nodes: Seq<NodeView>,
    pub threads: Seq<ThreadView>,
}

impl View for Doc {
    type V = DocView;

    open spec fn view(&self) -> DocView {
        DocView { nodes: views(self.nodes@), threads: views(self.threads@) }
    }
}

impl DeepCopy for Doc {
    fn deep_copy(&self) -> (r: Self) {
        Doc { nodes: copy_vec(&self.nodes), threads: copy_vec(&self.threads) }
    }
}

impl Doc {
    pub fn empty() -> (r: Doc)
        ensures
            r@.nodes.len() == 0,
            r@.threads.len() == 0,
    {
        let r = Doc { nodes: Vec::new(), threads: Vec::new() };
        assert(r@.nodes =~= Seq::<NodeView>::empty());
        r
    }
}

} // verus!
