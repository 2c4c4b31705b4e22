//! HTML and Markdown export of a document.
use vstd::prelude::*;
use vstd::string::{StrSliceExecFns, StringExecFns};

use crate::comments::{decimal, push_decimal};
pub use crate::delta::{from_quill_delta, to_quill_delta};
use crate::doc::{
    views, CellView, DeepCopy, Doc, DocView, InlineSpan, MCQOption, Node, NodeView, OptionView, RowView, SpanView,
    StyleView, Table, TableCell, TableRow, TableView,
};

verus! {

// ---------------------------------------------------------------- escaping

/// The characters `s` becomes when each of its characters `c` is replaced by
/// `f(c)`.
pub open spec fn escape_by(s: Seq<char>, f: spec_fn(char) -> Seq<char>) -> Seq<char>
    decreases s.len(),
{
    if s.len() == 0 {
        Seq::empty()
    } else {
        escape_by(s.drop_last(), f) + f(s.last())
    }
}

/// HTML text escaping of one character: `&`, `<` and `>` become entities.
pub open spec fn text_entity(c: char) -> Seq<char> {
    if c == '&' {
        "&amp;"@
    } else if c == '<' {
        "&lt;"@
    } else if c == '>' {
        "&gt;"@
    } else {
        seq![c]
    }
}

/// HTML escaping of one character inside a double-quoted attribute: as for
/// text, and `"` becomes `&quot;`.
pub open spec fn attr_entity(c: char) -> Seq<char> {
    if c == '"' {
        "&quot;"@
    } else {
        text_entity(c)
    }
}

pub open spec fn html_text(s: Seq<char>) -> Seq<char> {
    escape_by(s, |c: char| text_entity(c))
}

pub open spec fn html_attr(s: Seq<char>) -> Seq<char> {
    escape_by(s, |c: char| attr_entity(c))
}

/// Markdown escaping of span text: `*` and `_` get a backslash.
pub open spec fn md_span_entity(c: char) -> Seq<char> {
    if c == '*' || c == '_' {
        seq!['\\', c]
    } else {
        seq![c]
    }
}

/// Markdown escaping of table cell text: `|` and `\` get a backslash.
pub open spec fn md_cell_entity(c: char) -> Seq<char> {
    if c == '|' || c == '\\' {
        seq!['\\', c]
    } else {
        seq![c]
    }
}

/// Relies on html_escape::encode_text: `&`, `<` and `>` are replaced by their
/// entities, every other character is kept.
#[verifier::external_body]
fn encode_text(s: &str) -> (r: String)
    ensures
        r@ == html_text(s@),
{
    html_escape::encode_text(s).into_owned()
}

/// Relies on html_escape::encode_double_quoted_attribute: `&`, `<`, `>` and
/// `"` are replaced by their entities, every other character is kept.
#[verifier::external_body]
fn encode_attr(s: &str) -> (r: String)
    ensures
        r@ == html_attr(s@),
{
    html_escape::encode_double_quoted_attribute(s).into_owned()
}

/// Relies on char's ToString: the string holding that one character.
#[verifier::external_body]
fn char_string(c: char) -> (r: String)
    ensures
        r@ == seq![c],
{
    c.to_string()
}

/// The characters that `str::trim` keeps of `s`.
pub uninterp spec fn trim_of(s: Seq<char>) -> Seq<char>;

/// Relies on str::trim: `s` without leading and trailing whitespace.
#[verifier::external_body]
fn trim(s: &str) -> (r: &str)
    ensures
        r@ == trim_of(s@),
{
    s.trim()
}

fn push_text(acc: &mut String, s: &str)
    ensures
        final(acc)@ == old(acc)@ + html_text(s@),
{
    let e = encode_text(s);
    acc.append(e.as_str());
}

fn push_attr(acc: &mut String, s: &str)
    ensures
        final(acc)@ == old(acc)@ + html_attr(s@),
{
    let e = encode_attr(s);
    acc.append(e.as_str());
}

/// Appends `s` with Markdown escapes: of span text when `cell` is false, of
/// table cell text when it is true.
fn push_md_escaped(acc: &mut String, s: &str, cell: bool)
    ensures
        final(acc)@ == old(acc)@ + if cell {
            escape_by(s@, |c: char| md_cell_entity(c))
        } else {
            escape_by(s@, |c: char| md_span_entity(c))
        },
{
    let ghost f: spec_fn(char) -> Seq<char> = if cell {
        |c: char| md_cell_entity(c)
    } else {
        |c: char| md_span_entity(c)
    };
    let ghost a0 = acc@;
    let n = s.unicode_len();
    let mut i: usize = 0;
    while i < n
        invariant
            n == s@.len(),
            i <= n,
            f == (if cell {
                |c: char| md_cell_entity(c)
            } else {
                |c: char| md_span_entity(c)
            }),
            acc@ == a0 + escape_by(s@.take(i as int), f),
        decreases n - i,
    {
        let c = s.get_char(i);
        let special = if cell {
            c == '|' || c == '\\'
        } else {
            c == '*' || c == '_'
        };
        if special {
            proof {
                reveal_strlit("\\");
            }
            acc.append("\\");
        }
        let cs = char_string(c);
        acc.append(cs.as_str());
        proof {
            assert(s@.take(i + 1).drop_last() =~= s@.take(i as int));
            assert(f(c) == if special { seq!['\\', c] } else { seq![c] });
        }
        i += 1;
        assert(acc@ =~= a0 + escape_by(s@.take(i as int), f));
    }
    assert(s@.take(n as int) =~= s@);
}

// ---------------------------------------------------------------- style lists

/// The non-empty parts, joined by `;`.
pub open spec fn join_semi(parts: Seq<Seq<char>>) -> Seq<char>
    decreases parts.len(),
{
    if parts.len() == 0 {
        Seq::empty()
    } else if parts.len() == 1 {
        parts[0]
    } else {
        join_semi(parts.drop_last()) + ";"@ + parts.last()
    }
}

/// The CSS declarations a span's color, highlight and font size call for;
/// `esc` is applied to the color values.
pub open spec fn style_decls(st: StyleView, html: bool) -> Seq<Seq<char>> {
    let esc = |v: Seq<char>| if html { html_attr(v) } else { v };
    (match st.color {
        Some(c) => seq!["color:"@ + esc(c)],
        None => Seq::empty(),
    }) + (match st.highlight {
        Some(h) => seq!["background:"@ + esc(h)],
        None => Seq::empty(),
    }) + (match st.font_size_px {
        Some(f) => seq!["font-size:"@ + decimal(f as nat) + "px"@],
        None => Seq::empty(),
    })
}

/// Wraps `inner` in a styling `span` element when there are declarations.
pub open spec fn with_decls(decls: Seq<Seq<char>>, inner: Seq<char>) -> Seq<char> {
    if decls.len() == 0 {
        inner
    } else {
        "<span style=\""@ + join_semi(decls) + "\">"@ + inner + "</span>"@
    }
}

/// Builds the `;`-joined declarations of a span's style.
fn style_decl_string(st: &crate::doc::InlineStyle, html: bool) -> (r: (String, bool))
    ensures
        r.0@ == join_semi(style_decls(st@, html)),
        r.1 == (style_decls(st@, html).len() > 0),
{
    let ghost esc = |v: Seq<char>| if html { html_attr(v) } else { v };
    let ghost d0: Seq<Seq<char>> = match st@.color {
        Some(c) => seq!["color:"@ + esc(c)],
        None => Seq::empty(),
    };
    let ghost d1: Seq<Seq<char>> = match st@.highlight {
        Some(h) => seq!["background:"@ + esc(h)],
        None => Seq::empty(),
    };
    let ghost d2: Seq<Seq<char>> = match st@.font_size_px {
        Some(f) => seq!["font-size:"@ + decimal(f as nat) + "px"@],
        None => Seq::empty(),
    };
    assert(style_decls(st@, html) == d0 + d1 + d2);
    let mut acc = String::new();
    let mut any = false;
    match &st.color {
        Some(c) => {
            acc.append("color:");
            if html {
                push_attr(&mut acc, c.as_str());
            } else {
                acc.append(c.as_str());
            }
            any = true;
        },
        None => {},
    }
    assert(acc@ =~= join_semi(d0));
    assert(any == (d0.len() > 0));
    let ghost j0 = acc@;
    match &st.highlight {
        Some(h) => {
            if any {
                acc.append(";");
            }
            acc.append("background:");
            if html {
                push_attr(&mut acc, h.as_str());
            } else {
                acc.append(h.as_str());
            }
            any = true;
        },
        None => {},
    }
    proof {
        lemma_join_semi_push(d0, d1);
    }
    assert(acc@ =~= join_semi(d0 + d1));
    assert(any == ((d0 + d1).len() > 0));
    match st.font_size_px {
        Some(f) => {
            if any {
                acc.append(";");
            }
            acc.append("font-size:");
            push_decimal(&mut acc, f as usize);
            acc.append("px");
            any = true;
        },
        None => {},
    }
    proof {
        lemma_join_semi_push(d0 + d1, d2);
    }
    assert(acc@ =~= join_semi(d0 + d1 + d2));
    (acc, any)
}

/// Joining after appending at most one part.
proof fn lemma_join_semi_push(a: Seq<Seq<char>>, b: Seq<Seq<char>>)
    requires
        b.len() <= 1,
    ensures
        b.len() == 0 ==> join_semi(a + b) == join_semi(a),
        b.len() == 1 && a.len() == 0 ==> join_semi(a + b) == b[0],
        b.len() == 1 && a.len() > 0 ==> join_semi(a + b) == join_semi(a) + ";"@ + b[0],
{
    if b.len() == 0 {
        assert(a + b =~= a);
    } else if a.len() == 0 {
        assert(a + b =~= b);
    } else {
        assert((a + b).drop_last() =~= a);
    }
}

// ---------------------------------------------------------------- spans

/// The HTML of one span: its escaped text inside code, underline, emphasis
/// and strong elements (innermost first), then a styling span, then a link.
pub open spec fn span_html(sp: SpanView) -> Seq<char> {
    let t0 = html_text(sp.text);
    let t1 = if sp.style.code { "<code>"@ + t0 + "</code>"@ } else { t0 };
    let t2 = if sp.style.underline { "<u>"@ + t1 + "</u>"@ } else { t1 };
    let t3 = if sp.style.italic { "<em>"@ + t2 + "</em>"@ } else { t2 };
    let t4 = if sp.style.bold { "<strong>"@ + t3 + "</strong>"@ } else { t3 };
    let t5 = with_decls(style_decls(sp.style, true), t4);
    match sp.style.link {
        Some(href) => "<a href=\""@ + html_attr(href) + "\">"@ + t5 + "</a>"@,
        None => t5,
    }
}

/// The Markdown of one span: its escaped text inside code, strong and
/// emphasis marks, an underline element and a styling span, then a link.
pub open spec fn span_md(sp: SpanView) -> Seq<char> {
    let t0 = escape_by(sp.text, |c: char| md_span_entity(c));
    let t1 = if sp.style.code { "`"@ + t0 + "`"@ } else { t0 };
    let t2 = if sp.style.bold { "**"@ + t1 + "**"@ } else { t1 };
    let t3 = if sp.style.italic { "_"@ + t2 + "_"@ } else { t2 };
    let t4 = if sp.style.underline { "<u>"@ + t3 + "</u>"@ } else { t3 };
    let t5 = with_decls(style_decls(sp.style, false), t4);
    match sp.style.link {
        Some(href) => "["@ + t5 + "]("@ + href + ")"@,
        None => t5,
    }
}

/// The spans rendered one after the other, as HTML or as Markdown.
pub open spec fn spans_out(spans: Seq<SpanView>, html: bool) -> Seq<char>
    decreases spans.len(),
{
    if spans.len() == 0 {
        Seq::empty()
    } else {
        spans_out(spans.drop_last(), html) + if html {
            span_html(spans.last())
        } else {
            span_md(spans.last())
        }
    }
}

/// `open`, `inner` and `close` one after the other.
fn wrap(open: &str, inner: String, close: &str) -> (r: String)
    ensures
        r@ == open@ + inner@ + close@,
{
    let mut r = open.to_owned();
    r.append(inner.as_str());
    r.append(close);
    r
}

fn render_span(span: &InlineSpan, html: bool) -> (r: String)
    ensures
        r@ == if html {
            span_html(span@)
        } else {
            span_md(span@)
        },
{
    let st = &span.style;
    let mut inner = String::new();
    if html {
        push_text(&mut inner, span.text.as_str());
        if st.code {
            inner = wrap("<code>", inner, "</code>");
        }
        if st.underline {
            inner = wrap("<u>", inner, "</u>");
        }
        if st.italic {
            inner = wrap("<em>", inner, "</em>");
        }
        if st.bold {
            inner = wrap("<strong>", inner, "</strong>");
        }
    } else {
        push_md_escaped(&mut inner, span.text.as_str(), false);
        if st.code {
            inner = wrap("`", inner, "`");
        }
        if st.bold {
            inner = wrap("**", inner, "**");
        }
        if st.italic {
            inner = wrap("_", inner, "_");
        }
        if st.underline {
            inner = wrap("<u>", inner, "</u>");
        }
    }
    let (decls, any) = style_decl_string(st, html);
    if any {
        let mut w = "<span style=\"".to_owned();
        w.append(decls.as_str());
        w.append("\">");
        w.append(inner.as_str());
        w.append("</span>");
        inner = w;
    }
    match &st.link {
        Some(href) => {
            if html {
                let mut w = "<a href=\"".to_owned();
                push_attr(&mut w, href.as_str());
                w.append("\">");
                w.append(inner.as_str());
                w.append("</a>");
                inner = w;
            } else {
                let mut w = "[".to_owned();
                w.append(inner.as_str());
                w.append("](");
                w.append(href.as_str());
                w.append(")");
                inner = w;
            }
        },
        None => {},
    }
    inner
}

/// Appends the rendering of each span.
fn push_spans(acc: &mut String, spans: &Vec<InlineSpan>, html: bool)
    ensures
        final(acc)@ == old(acc)@ + spans_out(crate::doc::views(spans@), html),
{
    let ghost sv = crate::doc::views(spans@);
    let ghost a0 = acc@;
    let mut i: usize = 0;
    while i < spans.len()
        invariant
            sv == crate::doc::views(spans@),
            i <= sv.len(),
            acc@ == a0 + spans_out(sv.take(i as int), html),
        decreases sv.len() - i,
    {
        let r = render_span(&spans[i], html);
        acc.append(r.as_str());
        proof {
            assert(sv.take(i + 1).drop_last() =~= sv.take(i as int));
        }
        i += 1;
        assert(acc@ =~= a0 + spans_out(sv.take(i as int), html));
    }
    assert(sv.take(i as int) =~= sv);
}

/// The HTML of a run of spans.
pub fn render_spans_html(spans: &Vec<InlineSpan>) -> (r: String)
    ensures
        r@ == spans_out(crate::doc::views(spans@), true),
{
    let mut s = String::new();
    push_spans(&mut s, spans, true);
    s
}

/// The Markdown of a run of spans.
pub fn render_spans_md(spans: &Vec<InlineSpan>) -> (r: String)
    ensures
        r@ == spans_out(crate::doc::views(spans@), false),
{
    let mut s = String::new();
    push_spans(&mut s, spans, false);
    s
}


// ---------------------------------------------------------------- inline formulas

/// The index of the first `$` of `s` at or after `k`; `s.len()` when none.
pub open spec fn dollar_from(s: Seq<char>, k: int) -> int
    decreases s.len() - k,
{
    if k < 0 || k >= s.len() {
        s.len() as int
    } else if s[k] == '$' {
        k
    } else {
        dollar_from(s, k + 1)
    }
}

/// Escaped text from position `i` on, where each `$...$` pair becomes an
/// inline formula element; an unmatched `$` stays as text.
pub open spec fn formulas_from(s: Seq<char>, i: int) -> Seq<char>
    decreases s.len() - i,
{
    if i < 0 || i >= s.len() {
        Seq::empty()
    } else {
        let p = dollar_from(s, i);
        let q = dollar_from(s, p + 1);
        if p >= s.len() || q >= s.len() || p < i || q <= p {
            html_text(s.subrange(i, s.len() as int))
        } else {
            html_text(s.subrange(i, p)) + "<span class=\"formula-inline\">"@ + html_text(s.subrange(p + 1, q))
                + "</span>"@ + formulas_from(s, q + 1)
        }
    }
}

proof fn lemma_dollar_from(s: Seq<char>, k: int)
    requires
        0 <= k <= s.len(),
    ensures
        k <= dollar_from(s, k) <= s.len(),
        dollar_from(s, k) < s.len() ==> s[dollar_from(s, k)] == '$',
    decreases s.len() - k,
{
    if k < s.len() && s[k] != '$' {
        lemma_dollar_from(s, k + 1);
    }
}

fn find_dollar(s: &str, n: usize, k: usize) -> (r: usize)
    requires
        n == s@.len(),
        k <= n,
    ensures
        r == dollar_from(s@, k as int),
{
    let mut j = k;
    while j < n
        invariant
            n == s@.len(),
            k <= j <= n,
            dollar_from(s@, j as int) == dollar_from(s@, k as int),
        decreases n - j,
    {
        if s.get_char(j) == '$' {
            return j;
        }
        j += 1;
    }
    j
}

/// Escaped paragraph text in which `$...$` pairs become inline formulas.
pub fn render_text_with_inline_formulas(text: &str) -> (r: String)
    ensures
        r@ == formulas_from(text@, 0),
{
    let ghost s = text@;
    let n = text.unicode_len();
    let mut out = String::new();
    let mut i: usize = 0;
    while i < n
        invariant
            s == text@,
            n == s.len(),
            i <= n,
            out@ + formulas_from(s, i as int) == formulas_from(s, 0),
        decreases n - i,
    {
        proof {
            lemma_dollar_from(s, i as int);
        }
        let p = find_dollar(text, n, i);
        let q = if p < n {
            proof {
                lemma_dollar_from(s, p + 1);
            }
            find_dollar(text, n, p + 1)
        } else {
            n
        };
        if p >= n || q >= n {
            let ghost before = out@;
            push_text(&mut out, text.substring_char(i, n));
            assert(formulas_from(s, n as int) == Seq::<char>::empty());
            assert(out@ + formulas_from(s, n as int) =~= before + formulas_from(s, i as int));
            i = n;
        } else {
            let ghost before = out@;
            push_text(&mut out, text.substring_char(i, p));
            out.append("<span class=\"formula-inline\">");
            push_text(&mut out, text.substring_char(p + 1, q));
            out.append("</span>");
            assert(out@ + formulas_from(s, q + 1) =~= before + formulas_from(s, i as int));
            i = q + 1;
        }
    }
    assert(formulas_from(s, n as int) == Seq::<char>::empty());
    assert(out@ =~= out@ + formulas_from(s, i as int));
    out
}

// ---------------------------------------------------------------- generic lists

/// `f` of each item, one after the other.
pub open spec fn concat_map<T>(s: Seq<T>, f: spec_fn(T) -> Seq<char>) -> Seq<char>
    decreases s.len(),
{
    if s.len() == 0 {
        Seq::empty()
    } else {
        concat_map(s.drop_last(), f) + f(s.last())
    }
}

// ---------------------------------------------------------------- HTML

/// A span attribute `name` (which holds the opening quote) with value `v`,
/// present only when `v` is above one.
pub open spec fn span_attr(name: Seq<char>, v: u32) -> Seq<char> {
    if v > 1 {
        name + decimal(v as nat) + "\""@
    } else {
        Seq::empty()
    }
}

/// The style attribute for a cell background, if any.
pub open spec fn background_attr(bg: Option<Seq<char>>) -> Seq<char> {
    match bg {
        Some(b) => " style=\"background:"@ + html_attr(b) + "\""@,
        None => Seq::empty(),
    }
}

/// The attributes of a table cell element: its spans above one, and its
/// background as a style.
pub open spec fn cell_attrs(c: CellView) -> Seq<char> {
    span_attr(" colspan=\""@, c.colspan) + span_attr(" rowspan=\""@, c.rowspan) + background_attr(c.style.background)
}

/// The content of a table cell element: its spans, else its escaped text.
pub open spec fn cell_inner(c: CellView) -> Seq<char> {
    match c.spans {
        Some(sp) => spans_out(sp, true),
        None => html_text(c.text),
    }
}

pub open spec fn cell_html(c: CellView) -> Seq<char> {
    if c.placeholder {
        Seq::empty()
    } else {
        "      <td"@ + cell_attrs(c) + ">"@ + cell_inner(c) + "</td>\n"@
    }
}

pub open spec fn row_html(r: RowView) -> Seq<char> {
    "    <tr"@ + (match r.height_px {
        Some(h) => " style=\"height:"@ + decimal(h as nat) + "px\""@,
        None => Seq::empty(),
    }) + ">\n"@ + concat_map(r.cells, |c: CellView| cell_html(c)) + "    </tr>\n"@
}

pub open spec fn table_html(t: TableView) -> Seq<char> {
    "  <table data-smart>\n"@ + concat_map(t.rows, |r: RowView| row_html(r)) + "  </table>\n"@
}

pub open spec fn option_html(o: OptionView) -> Seq<char> {
    "      <li"@ + (if o.correct {
        " data-correct=\"true\""@
    } else {
        Seq::empty()
    }) + ">"@ + html_text(o.text) + "</li>\n"@
}

/// A heading level clamped to 1..=6.
pub open spec fn heading_level(level: u8) -> nat {
    if level < 1 {
        1
    } else if level > 6 {
        6
    } else {
        level as nat
    }
}

/// Text of a paragraph or heading: its spans if it has any, else the text
/// with inline formulas.
pub open spec fn block_text_html(text: Seq<char>, spans: Option<Seq<SpanView>>) -> Seq<char> {
    match spans {
        Some(sp) => spans_out(sp, true),
        None => formulas_from(text, 0),
    }
}

pub open spec fn node_html(n: NodeView) -> Seq<char> {
    match n {
        NodeView::Paragraph { text, spans } => "  <p>"@ + block_text_html(text, spans) + "</p>\n"@,
        NodeView::Heading { level, text, spans } => "  <h"@ + decimal(heading_level(level)) + ">"@
            + block_text_html(text, spans) + "</h"@ + decimal(heading_level(level)) + ">\n"@,
        NodeView::Table(t) => table_html(t),
        NodeView::Image { src, alt } => "  <img src=\""@ + html_attr(src) + "\" alt=\""@ + html_attr(alt) + "\"/>\n"@,
        NodeView::Media { key, content_type } => "  <div data-media key=\""@ + html_attr(key) + "\" type=\""@
            + html_attr(content_type) + "\"></div>\n"@,
        NodeView::FormulaInline { tex } => "  <span class=\"formula-inline\">"@ + html_text(tex) + "</span>\n"@,
        NodeView::FormulaBlock { tex } => "  <div class=\"formula-block\">"@ + html_text(tex) + "</div>\n"@,
        NodeView::CommentAnchor { thread_id } => "  <sup data-comment=\""@ + html_attr(thread_id) + "\"></sup>\n"@,
        NodeView::MCQBlock(b) => "  <div class=\"mcq\">\n"@ + "    <div class=\"q\">"@ + html_text(b.question)
            + "</div>\n"@ + "    <ul>\n"@ + concat_map(b.options, |o: OptionView| option_html(o))
            + "    </ul>\n  </div>\n"@,
        NodeView::InfoBox(b) => "  <div class=\"info-box "@ + html_attr(b.kind) + "\">"@ + html_text(b.text)
            + "</div>\n"@,
    }
}

/// The HTML of a sequence of nodes, wrapped in the document element.
pub open spec fn nodes_html(nodes: Seq<NodeView>) -> Seq<char> {
    "<div class=\"doc\">\n"@ + concat_map(nodes, |n: NodeView| node_html(n)) + "</div>"@
}

/// The HTML export of a document.
pub open spec fn doc_html(d: DocView) -> Seq<char> {
    nodes_html(d.nodes)
}

fn push_span_attr(acc: &mut String, name: &str, v: u32)
    ensures
        final(acc)@ == old(acc)@ + span_attr(name@, v),
{
    if v > 1 {
        acc.append(name);
        push_decimal(acc, v as usize);
        acc.append("\"");
    }
    assert(acc@ =~= old(acc)@ + span_attr(name@, v));
}

fn push_background_attr(acc: &mut String, bg: &Option<String>)
    ensures
        final(acc)@ == old(acc)@ + background_attr(crate::doc::opt_str(*bg)),
{
    match bg {
        Some(b) => {
            acc.append(" style=\"background:");
            push_attr(acc, b.as_str());
            acc.append("\"");
        },
        None => {},
    }
    assert(acc@ =~= old(acc)@ + background_attr(crate::doc::opt_str(*bg)));
}

fn push_cell_attrs(acc: &mut String, c: &TableCell)
    ensures
        final(acc)@ == old(acc)@ + cell_attrs(c@),
{
    push_span_attr(acc, " colspan=\"", c.colspan);
    push_span_attr(acc, " rowspan=\"", c.rowspan);
    push_background_attr(acc, &c.style.background);
    assert(acc@ =~= old(acc)@ + cell_attrs(c@));
}

fn push_cell_html(acc: &mut String, c: &TableCell)
    ensures
        final(acc)@ == old(acc)@ + cell_html(c@),
{
    if c.placeholder {
        assert(acc@ =~= old(acc)@ + cell_html(c@));
        return ;
    }
    acc.append("      <td");
    push_cell_attrs(acc, c);
    acc.append(">");
    let ghost a3 = acc@;
    match &c.spans {
        Some(sp) => push_spans(acc, sp, true),
        None => push_text(acc, c.text.as_str()),
    }
    assert(acc@ =~= a3 + cell_inner(c@));
    acc.append("</td>\n");
    assert(acc@ =~= old(acc)@ + cell_html(c@));
}

fn push_row_html(acc: &mut String, r: &TableRow)
    ensures
        final(acc)@ == old(acc)@ + row_html(r@),
{
    acc.append("    <tr");
    match r.height_px {
        Some(h) => {
            acc.append(" style=\"height:");
            push_decimal(acc, h as usize);
            acc.append("px\"");
        },
        None => {},
    }
    acc.append(">\n");
    let ghost a1 = acc@;
    let ghost cv = r@.cells;
    let mut i: usize = 0;
    while i < r.cells.len()
        invariant
            cv == r@.cells,
            i <= cv.len(),
            acc@ == a1 + concat_map(cv.take(i as int), |c: CellView| cell_html(c)),
        decreases cv.len() - i,
    {
        push_cell_html(acc, &r.cells[i]);
        proof {
            assert(cv.take(i + 1).drop_last() =~= cv.take(i as int));
        }
        i += 1;
        assert(acc@ =~= a1 + concat_map(cv.take(i as int), |c: CellView| cell_html(c)));
    }
    assert(cv.take(i as int) =~= cv);
    acc.append("    </tr>\n");
    assert(acc@ =~= old(acc)@ + row_html(r@));
}

fn push_table_html(acc: &mut String, t: &Table)
    ensures
        final(acc)@ == old(acc)@ + table_html(t@),
{
    acc.append("  <table data-smart>\n");
    let ghost a1 = acc@;
    let ghost rv = t@.rows;
    let mut i: usize = 0;
    while i < t.rows.len()
        invariant
            rv == t@.rows,
            i <= rv.len(),
            acc@ == a1 + concat_map(rv.take(i as int), |r: RowView| row_html(r)),
        decreases rv.len() - i,
    {
        push_row_html(acc, &t.rows[i]);
        proof {
            assert(rv.take(i + 1).drop_last() =~= rv.take(i as int));
        }
        i += 1;
        assert(acc@ =~= a1 + concat_map(rv.take(i as int), |r: RowView| row_html(r)));
    }
    assert(rv.take(i as int) =~= rv);
    acc.append("  </table>\n");
    assert(acc@ =~= old(acc)@ + table_html(t@));
}

fn push_options_html(acc: &mut String, opts: &Vec<MCQOption>)
    ensures
        final(acc)@ == old(acc)@ + concat_map(views(opts@), |o: OptionView| option_html(o)),
{
    let ghost a1 = acc@;
    let ghost ov = views(opts@);
    let mut i: usize = 0;
    while i < opts.len()
        invariant
            ov == views(opts@),
            i <= ov.len(),
            acc@ == a1 + concat_map(ov.take(i as int), |o: OptionView| option_html(o)),
        decreases ov.len() - i,
    {
        let o = &opts[i];
        acc.append("      <li");
        if o.correct {
            acc.append(" data-correct=\"true\"");
        }
        acc.append(">");
        push_text(acc, o.text.as_str());
        acc.append("</li>\n");
        proof {
            assert(ov.take(i + 1).drop_last() =~= ov.take(i as int));
        }
        i += 1;
        assert(acc@ =~= a1 + concat_map(ov.take(i as int), |o: OptionView| option_html(o)));
    }
    assert(ov.take(i as int) =~= ov);
}

fn level_of(level: u8) -> (r: usize)
    ensures
        r as nat == heading_level(level),
{
    if level < 1 {
        1
    } else if level > 6 {
        6
    } else {
        level as usize
    }
}

fn push_block_text_html(acc: &mut String, text: &String, spans: &Option<Vec<InlineSpan>>)
    ensures
        final(acc)@ == old(acc)@ + block_text_html(text@, crate::doc::opt_views(*spans)),
{
    match spans {
        Some(sp) => push_spans(acc, sp, true),
        None => {
            let r = render_text_with_inline_formulas(text.as_str());
            acc.append(r.as_str());
        },
    }
}

fn push_node_html(acc: &mut String, n: &Node)
    ensures
        final(acc)@ == old(acc)@ + node_html(n@),
{
    match n {
        Node::Paragraph { text, spans } => {
            acc.append("  <p>");
            push_block_text_html(acc, text, spans);
            acc.append("</p>\n");
        },
        Node::Heading { level, text, spans } => {
            let lvl = level_of(*level);
            acc.append("  <h");
            push_decimal(acc, lvl);
            acc.append(">");
            push_block_text_html(acc, text, spans);
            acc.append("</h");
            push_decimal(acc, lvl);
            acc.append(">\n");
        },
        Node::Table(t) => push_table_html(acc, t),
        Node::Image { src, alt } => {
            acc.append("  <img src=\"");
            push_attr(acc, src.as_str());
            acc.append("\" alt=\"");
            push_attr(acc, alt.as_str());
            acc.append("\"/>\n");
        },
        Node::Media { key, content_type } => {
            acc.append("  <div data-media key=\"");
            push_attr(acc, key.as_str());
            acc.append("\" type=\"");
            push_attr(acc, content_type.as_str());
            acc.append("\"></div>\n");
        },
        Node::FormulaInline { tex } => {
            acc.append("  <span class=\"formula-inline\">");
            push_text(acc, tex.as_str());
            acc.append("</span>\n");
        },
        Node::FormulaBlock { tex } => {
            acc.append("  <div class=\"formula-block\">");
            push_text(acc, tex.as_str());
            acc.append("</div>\n");
        },
        Node::CommentAnchor { thread_id } => {
            acc.append("  <sup data-comment=\"");
            push_attr(acc, thread_id.as_str());
            acc.append("\"></sup>\n");
        },
        Node::MCQBlock(b) => {
            acc.append("  <div class=\"mcq\">\n");
            acc.append("    <div class=\"q\">");
            push_text(acc, b.question.as_str());
            acc.append("</div>\n");
            acc.append("    <ul>\n");
            push_options_html(acc, &b.options);
            acc.append("    </ul>\n  </div>\n");
        },
        Node::InfoBox(b) => {
            acc.append("  <div class=\"info-box ");
            push_attr(acc, b.kind.as_str());
            acc.append("\">");
            push_text(acc, b.text.as_str());
            acc.append("</div>\n");
        },
    }
    assert(acc@ =~= old(acc)@ + node_html(n@));
}

/// The HTML export of a sequence of nodes.
fn nodes_to_html(nodes: &Vec<Node>) -> (r: String)
    ensures
        r@ == nodes_html(views(nodes@)),
{
    let mut out = "<div class=\"doc\">\n".to_owned();
    let ghost a1 = out@;
    let ghost nv = views(nodes@);
    let mut i: usize = 0;
    while i < nodes.len()
        invariant
            nv == views(nodes@),
            i <= nv.len(),
            out@ == a1 + concat_map(nv.take(i as int), |n: NodeView| node_html(n)),
        decreases nv.len() - i,
    {
        push_node_html(&mut out, &nodes[i]);
        proof {
            assert(nv.take(i + 1).drop_last() =~= nv.take(i as int));
        }
        i += 1;
        assert(out@ =~= a1 + concat_map(nv.take(i as int), |n: NodeView| node_html(n)));
    }
    assert(nv.take(i as int) =~= nv);
    out.append("</div>");
    out
}

/// The HTML export of a document: tables carry colspan/rowspan and skip
/// placeholder cells; spans nest code, underline, emphasis, strong, a
/// styling span and a link, innermost first.
pub fn to_html(doc: &Doc) -> (r: String)
    ensures
        r@ == doc_html(doc@),
{
    nodes_to_html(&doc.nodes)
}


// ---------------------------------------------------------------- Markdown

/// Whether some cell of the table spans more than one row or column.
pub open spec fn has_span_cells_spec(t: TableView) -> bool {
    exists|i: int, j: int|
        0 <= i < t.rows.len() && 0 <= j < t.rows[i].cells.len() && ((#[trigger] t.rows[i].cells[j]).colspan > 1
            || t.rows[i].cells[j].rowspan > 1)
}

pub open spec fn gfm_cell(c: CellView) -> Seq<char> {
    if c.placeholder {
        Seq::empty()
    } else {
        " "@ + escape_by(trim_of(c.text), |x: char| md_cell_entity(x)) + " |"@
    }
}

pub open spec fn gfm_row_spec(r: RowView) -> Seq<char> {
    "|"@ + concat_map(r.cells, |c: CellView| gfm_cell(c)) + "\n"@
}

pub open spec fn gfm_separator_spec(r: RowView) -> Seq<char> {
    "|"@ + concat_map(r.cells, |c: CellView| " --- |"@) + "\n"@
}

/// A GitHub-flavored table: the first row as header, a separator with one
/// column per cell of the first row, then the other rows.
pub open spec fn table_gfm(t: TableView) -> Seq<char> {
    if t.rows.len() == 0 {
        Seq::empty()
    } else {
        gfm_row_spec(t.rows[0]) + gfm_separator_spec(t.rows[0]) + concat_map(
            t.rows.skip(1),
            |r: RowView| gfm_row_spec(r),
        )
    }
}

/// The letter that marks option `i`: `A` for the first, counting on in
/// bytes, wrapping past 255.
pub open spec fn option_letter(i: int) -> char {
    (((65 + i % 256) % 256) as u8) as char
}

pub open spec fn option_md(i: int, o: OptionView) -> Seq<char> {
    "- "@ + seq![option_letter(i)] + ". "@ + o.text + (if o.correct {
        " (\u{2714})"@
    } else {
        Seq::empty()
    }) + "\n"@
}

pub open spec fn options_md(opts: Seq<OptionView>) -> Seq<char>
    decreases opts.len(),
{
    if opts.len() == 0 {
        Seq::empty()
    } else {
        options_md(opts.drop_last()) + option_md(opts.len() - 1, opts.last())
    }
}

/// Text of a paragraph or heading: its spans if it has any, else its text.
pub open spec fn block_text_md(text: Seq<char>, spans: Option<Seq<SpanView>>) -> Seq<char> {
    match spans {
        Some(sp) => spans_out(sp, false),
        None => text,
    }
}

pub open spec fn node_md(n: NodeView) -> Seq<char> {
    match n {
        NodeView::Paragraph { text, spans } => block_text_md(text, spans) + "\n\n"@,
        NodeView::Heading { level, text, spans } => Seq::new(heading_level(level), |k: int| '#') + " "@
            + block_text_md(text, spans) + "\n\n"@,
        NodeView::Table(t) => (if has_span_cells_spec(t) {
            nodes_html(seq![n])
        } else {
            table_gfm(t)
        }) + "\n\n"@,
        NodeView::Image { src, alt } => "!["@ + alt + "]("@ + src + ")\n\n"@,
        NodeView::Media { key, content_type } => "<div data-media key=\""@ + key + "\" type=\""@ + content_type
            + "\"></div>\n\n"@,
        NodeView::FormulaInline { tex } => "$"@ + tex + "$\n\n"@,
        NodeView::FormulaBlock { tex } => "$$\n"@ + tex + "\n$$\n\n"@,
        NodeView::CommentAnchor { .. } => Seq::empty(),
        NodeView::MCQBlock(b) => "**MCQ:** "@ + b.question + "\n"@ + options_md(b.options) + "\n"@,
        NodeView::InfoBox(b) => "> ["@ + b.kind + "] "@ + b.text + "\n\n"@,
    }
}

/// `s` without its trailing newlines.
pub open spec fn strip_newlines(s: Seq<char>) -> Seq<char>
    decreases s.len(),
{
    if s.len() > 0 && s.last() == '\n' {
        strip_newlines(s.drop_last())
    } else {
        s
    }
}

/// The Markdown export of a document: the nodes one after the other, ending
/// in exactly one newline.
pub open spec fn doc_md(d: DocView) -> Seq<char> {
    strip_newlines(concat_map(d.nodes, |n: NodeView| node_md(n))) + "\n"@
}

/// Whether some cell of the table spans more than one row or column.
pub fn has_span_cells(t: &Table) -> (r: bool)
    ensures
        r == has_span_cells_spec(t@),
{
    let mut i: usize = 0;
    while i < t.rows.len()
        invariant
            i <= t@.rows.len(),
            forall|a: int, b: int|
                0 <= a < i && 0 <= b < t@.rows[a].cells.len() ==> !((#[trigger] t@.rows[a].cells[b]).colspan > 1
                    || t@.rows[a].cells[b].rowspan > 1),
        decreases t@.rows.len() - i,
    {
        let row = &t.rows[i];
        let mut j: usize = 0;
        while j < row.cells.len()
            invariant
                i < t@.rows.len(),
                row@ == t@.rows[i as int],
                j <= row@.cells.len(),
                forall|a: int, b: int|
                    0 <= a < i && 0 <= b < t@.rows[a].cells.len() ==> !((#[trigger] t@.rows[a].cells[b]).colspan > 1
                        || t@.rows[a].cells[b].rowspan > 1),
                forall|b: int|
                    0 <= b < j ==> !((#[trigger] t@.rows[i as int].cells[b]).colspan > 1
                        || t@.rows[i as int].cells[b].rowspan > 1),
            decreases row@.cells.len() - j,
        {
            if row.cells[j].colspan > 1 || row.cells[j].rowspan > 1 {
                assert(t@.rows[i as int].cells[j as int].colspan > 1 || t@.rows[i as int].cells[j as int].rowspan > 1);
                return true;
            }
            j += 1;
        }
        i += 1;
    }
    false
}

fn push_gfm_row(acc: &mut String, r: &TableRow)
    ensures
        final(acc)@ == old(acc)@ + gfm_row_spec(r@),
{
    acc.append("|");
    let ghost a1 = acc@;
    let ghost cv = r@.cells;
    let mut i: usize = 0;
    while i < r.cells.len()
        invariant
            cv == r@.cells,
            i <= cv.len(),
            acc@ == a1 + concat_map(cv.take(i as int), |c: CellView| gfm_cell(c)),
        decreases cv.len() - i,
    {
        let cell = &r.cells[i];
        if !cell.placeholder {
            acc.append(" ");
            push_md_escaped(acc, trim(cell.text.as_str()), true);
            acc.append(" |");
        }
        proof {
            assert(cv.take(i + 1).drop_last() =~= cv.take(i as int));
        }
        i += 1;
        assert(acc@ =~= a1 + concat_map(cv.take(i as int), |c: CellView| gfm_cell(c)));
    }
    assert(cv.take(i as int) =~= cv);
    acc.append("\n");
}

/// One table row in GitHub-flavored Markdown; placeholder cells are left out.
pub fn gfm_row(row: &TableRow) -> (r: String)
    ensures
        r@ == gfm_row_spec(row@),
{
    let mut s = String::new();
    push_gfm_row(&mut s, row);
    s
}

/// The header separator line: one column per cell of `row`.
pub fn gfm_separator_row(row: &TableRow) -> (r: String)
    ensures
        r@ == gfm_separator_spec(row@),
{
    let mut acc = "|".to_owned();
    let ghost a1 = acc@;
    let ghost cv = row@.cells;
    let mut i: usize = 0;
    while i < row.cells.len()
        invariant
            cv == row@.cells,
            i <= cv.len(),
            acc@ == a1 + concat_map(cv.take(i as int), |c: CellView| " --- |"@),
        decreases cv.len() - i,
    {
        acc.append(" --- |");
        proof {
            assert(cv.take(i + 1).drop_last() =~= cv.take(i as int));
        }
        i += 1;
        assert(acc@ =~= a1 + concat_map(cv.take(i as int), |c: CellView| " --- |"@));
    }
    assert(cv.take(i as int) =~= cv);
    acc.append("\n");
    acc
}

/// A table as GitHub-flavored Markdown.
pub fn table_to_gfm(t: &Table) -> (r: String)
    ensures
        r@ == table_gfm(t@),
{
    let mut out = String::new();
    if t.rows.len() == 0 {
        return out;
    }
    push_gfm_row(&mut out, &t.rows[0]);
    let sep = gfm_separator_row(&t.rows[0]);
    out.append(sep.as_str());
    let ghost a1 = out@;
    let ghost rest = t@.rows.skip(1);
    let mut i: usize = 1;
    while i < t.rows.len()
        invariant
            rest == t@.rows.skip(1),
            1 <= i <= t@.rows.len(),
            out@ == a1 + concat_map(rest.take(i - 1), |r: RowView| gfm_row_spec(r)),
        decreases t@.rows.len() - i,
    {
        push_gfm_row(&mut out, &t.rows[i]);
        proof {
            assert(rest.take(i as int).drop_last() =~= rest.take(i - 1));
            assert(rest.take(i as int).last() == t@.rows[i as int]);
        }
        i += 1;
        assert(out@ =~= a1 + concat_map(rest.take(i - 1), |r: RowView| gfm_row_spec(r)));
    }
    assert(rest.take(i - 1) =~= rest);
    out
}

/// Cell text as it stands in a Markdown table: `|` and `\` escaped.
pub fn escape_md_cell_text(s: &str) -> (r: String)
    ensures
        r@ == escape_by(s@, |c: char| md_cell_entity(c)),
{
    let mut out = String::new();
    push_md_escaped(&mut out, s, true);
    out
}

fn letter_of(i: usize) -> (c: char)
    ensures
        c == option_letter(i as int),
{
    let m = i % 256;
    let code: usize = if m <= 190 {
        65 + m
    } else {
        m - 191
    };
    (code as u8) as char
}

fn push_options_md(acc: &mut String, opts: &Vec<MCQOption>)
    ensures
        final(acc)@ == old(acc)@ + options_md(views(opts@)),
{
    let ghost a1 = acc@;
    let ghost ov = views(opts@);
    let mut i: usize = 0;
    while i < opts.len()
        invariant
            ov == views(opts@),
            i <= ov.len(),
            acc@ == a1 + options_md(ov.take(i as int)),
        decreases ov.len() - i,
    {
        let o = &opts[i];
        acc.append("- ");
        let l = char_string(letter_of(i));
        acc.append(l.as_str());
        acc.append(". ");
        acc.append(o.text.as_str());
        if o.correct {
            acc.append(" (\u{2714})");
        }
        acc.append("\n");
        proof {
            assert(ov.take(i + 1).drop_last() =~= ov.take(i as int));
        }
        i += 1;
        assert(acc@ =~= a1 + options_md(ov.take(i as int)));
    }
    assert(ov.take(i as int) =~= ov);
}

fn push_block_text_md(acc: &mut String, text: &String, spans: &Option<Vec<InlineSpan>>)
    ensures
        final(acc)@ == old(acc)@ + block_text_md(text@, crate::doc::opt_views(*spans)),
{
    match spans {
        Some(sp) => push_spans(acc, sp, false),
        None => acc.append(text.as_str()),
    }
}

fn push_node_md(acc: &mut String, n: &Node)
    ensures
        final(acc)@ == old(acc)@ + node_md(n@),
{
    match n {
        Node::Paragraph { text, spans } => {
            push_block_text_md(acc, text, spans);
            acc.append("\n\n");
        },
        Node::Heading { level, text, spans } => {
            let lvl = level_of(*level);
            let ghost h0 = acc@;
            let mut k: usize = 0;
            while k < lvl
                invariant
                    k <= lvl,
                    acc@ == h0 + Seq::new(k as nat, |x: int| '#'),
                decreases lvl - k,
            {
                proof {
                    reveal_strlit("#");
                }
                acc.append("#");
                k += 1;
                assert(acc@ =~= h0 + Seq::new(k as nat, |x: int| '#'));
            }
            acc.append(" ");
            push_block_text_md(acc, text, spans);
            acc.append("\n\n");
        },
        Node::Table(t) => {
            if has_span_cells(t) {
                let mut one: Vec<Node> = Vec::new();
                one.push(n.deep_copy());
                assert(views(one@) =~= seq![n@]);
                let h = nodes_to_html(&one);
                acc.append(h.as_str());
            } else {
                let g = table_to_gfm(t);
                acc.append(g.as_str());
            }
            acc.append("\n\n");
        },
        Node::Image { src, alt } => {
            acc.append("![");
            acc.append(alt.as_str());
            acc.append("](");
            acc.append(src.as_str());
            acc.append(")\n\n");
        },
        Node::Media { key, content_type } => {
            acc.append("<div data-media key=\"");
            acc.append(key.as_str());
            acc.append("\" type=\"");
            acc.append(content_type.as_str());
            acc.append("\"></div>\n\n");
        },
        Node::FormulaInline { tex } => {
            acc.append("$");
            acc.append(tex.as_str());
            acc.append("$\n\n");
        },
        Node::FormulaBlock { tex } => {
            acc.append("$$\n");
            acc.append(tex.as_str());
            acc.append("\n$$\n\n");
        },
        Node::CommentAnchor { .. } => {},
        Node::MCQBlock(b) => {
            acc.append("**MCQ:** ");
            acc.append(b.question.as_str());
            acc.append("\n");
            push_options_md(acc, &b.options);
            acc.append("\n");
        },
        Node::InfoBox(b) => {
            acc.append("> [");
            acc.append(b.kind.as_str());
            acc.append("] ");
            acc.append(b.text.as_str());
            acc.append("\n\n");
        },
    }
    assert(acc@ =~= old(acc)@ + node_md(n@));
}

proof fn lemma_strip_newlines_take(s: Seq<char>, k: int)
    requires
        0 <= k < s.len(),
        forall|x: int| k <= x < s.len() ==> s[x] == '\n',
    ensures
        strip_newlines(s) == strip_newlines(s.take(k)),
    decreases s.len() - k,
{
    if k + 1 < s.len() {
        lemma_strip_newlines_take(s, k + 1);
    } else {
        assert(s.drop_last() =~= s.take(k));
    }
    assert(s.take(k + 1).drop_last() =~= s.take(k));
    if k + 1 == s.len() {
        assert(s.take(k + 1) =~= s);
    }
}

/// The Markdown export of a document. Tables become GitHub-flavored tables
/// unless a cell spans several rows or columns, in which case they are
/// embedded as HTML; comment anchors are left out.
pub fn to_markdown(doc: &Doc) -> (r: String)
    ensures
        r@ == doc_md(doc@),
{
    let mut out = String::new();
    let ghost nv = views(doc.nodes@);
    let mut i: usize = 0;
    while i < doc.nodes.len()
        invariant
            nv == views(doc.nodes@),
            i <= nv.len(),
            out@ == concat_map(nv.take(i as int), |n: NodeView| node_md(n)),
        decreases nv.len() - i,
    {
        push_node_md(&mut out, &doc.nodes[i]);
        proof {
            assert(nv.take(i + 1).drop_last() =~= nv.take(i as int));
        }
        i += 1;
        assert(out@ =~= concat_map(nv.take(i as int), |n: NodeView| node_md(n)));
    }
    assert(nv.take(i as int) =~= nv);
    let ghost raw = out@;
    let n = out.as_str().unicode_len();
    let mut k = n;
    while k > 0 && out.as_str().get_char(k - 1) == '\n'
        invariant
            raw == out@,
            n == raw.len(),
            k <= n,
            forall|x: int| k <= x < n ==> raw[x] == '\n',
        decreases k,
    {
        k -= 1;
    }
    proof {
        if k < n {
            lemma_strip_newlines_take(raw, k as int);
        } else {
            assert(raw.take(k as int) =~= raw);
        }
        let t = raw.take(k as int);
        assert(!(t.len() > 0 && t.last() == '\n'));
    }
    let mut r = out.as_str().substring_char(0, k).to_owned();
    r.append("\n");
    r
}

} // verus!
