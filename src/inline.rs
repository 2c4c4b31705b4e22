//! Inline style engine: applies a style to a byte range of a run of spans.
//!
//! Offsets are measured over the UTF-8 encoding of the text. A range whose
//! ends do not fall on character boundaries cannot be cut; such a request is
//! detected up front by `cuts_fit` and leaves the spans as they are.
use vstd::prelude::*;
use vstd::string::StringSliceAdditionalSpecFns;
use vstd::utf8::*;

use crate::doc::{copy_opt_str, plain_style, views, DeepCopy, InlineSpan, InlineStyle, SpanView, StyleView};

verus! {

broadcast use {encode_utf8_decode_utf8, encode_utf8_valid_utf8, vstd::slice::group_slice_axioms};

/// Number of bytes in the UTF-8 encoding of `t`.
pub open spec fn blen(t: Seq<char>) -> int {
    encode_utf8(t).len() as int
}

/// The characters encoded by bytes `a..b` of the encoding of `t`.
pub open spec fn byte_slice(t: Seq<char>, a: int, b: int) -> Seq<char> {
    decode_utf8(encode_utf8(t).subrange(a, b))
}

pub open spec fn clamp(x: int, lo: int, hi: int) -> int {
    if x < lo {
        lo
    } else if x > hi {
        hi
    } else {
        x
    }
}

/// Whether a span occupying bytes `pos..pos + len` meets the range `s..e`.
pub open spec fn overlaps(pos: int, len: int, s: int, e: int) -> bool {
    !(e <= pos || s >= pos + len)
}

/// `base` with `delta` laid over it: flags are or-ed in, optional fields
/// that `delta` sets replace those of `base`.
pub open spec fn overlay(base: StyleView, delta: StyleView) -> StyleView {
    StyleView {
        bold: base.bold || delta.bold,
        italic: base.italic || delta.italic,
        underline: base.underline || delta.underline,
        code: base.code || delta.code,
        link: if delta.link is Some {
            delta.link
        } else {
            base.link
        },
        color: if delta.color is Some {
            delta.color
        } else {
            base.color
        },
        highlight: if delta.highlight is Some {
            delta.highlight
        } else {
            base.highlight
        },
        font_size_px: if delta.font_size_px is Some {
            delta.font_size_px
        } else {
            base.font_size_px
        },
    }
}

/// Whether a span starting at byte `pos` can be cut where the range `s..e`
/// asks: the local start is a character boundary of its text, and the local
/// end is one of what follows the local start.
pub open spec fn piece_cuts_ok(sp: SpanView, pos: int, s: int, e: int) -> bool {
    let len = blen(sp.text);
    let ls = clamp(s - pos, 0, len);
    let le = clamp(e - pos, 0, len);
    overlaps(pos, len, s, e) ==> {
        &&& is_char_boundary(encode_utf8(sp.text), ls)
        &&& is_char_boundary(encode_utf8(sp.text).subrange(ls, len), le - ls)
    }
}

/// The pieces that a span starting at byte `pos` becomes: the part before the
/// range, the part inside it with the overlaid style, the part after; empty
/// pieces are dropped and a span outside the range is kept whole.
pub open spec fn span_pieces(sp: SpanView, pos: int, s: int, e: int, delta: StyleView) -> Seq<SpanView> {
    let len = blen(sp.text);
    let ls = clamp(s - pos, 0, len);
    let le = clamp(e - pos, 0, len);
    if !overlaps(pos, len, s, e) {
        seq![sp]
    } else {
        (if ls > 0 {
            seq![SpanView { text: byte_slice(sp.text, 0, ls), style: sp.style }]
        } else {
            Seq::empty()
        }) + (if ls < le {
            seq![SpanView { text: byte_slice(sp.text, ls, le), style: overlay(sp.style, delta) }]
        } else {
            Seq::empty()
        }) + (if le < len {
            seq![SpanView { text: byte_slice(sp.text, le, len), style: sp.style }]
        } else {
            Seq::empty()
        })
    }
}

/// Total number of bytes of the spans' texts.
pub open spec fn total_blen(spans: Seq<SpanView>) -> int
    decreases spans.len(),
{
    if spans.len() == 0 {
        0
    } else {
        total_blen(spans.drop_last()) + blen(spans.last().text)
    }
}

/// The spans' texts, one after the other.
pub open spec fn concat_text(spans: Seq<SpanView>) -> Seq<char>
    decreases spans.len(),
{
    if spans.len() == 0 {
        Seq::empty()
    } else {
        concat_text(spans.drop_last()) + spans.last().text
    }
}

/// Whether every span that meets the range `s..e` can be cut as it asks.
pub open spec fn cuts_ok(spans: Seq<SpanView>, s: int, e: int) -> bool
    decreases spans.len(),
{
    spans.len() == 0 || (cuts_ok(spans.drop_last(), s, e) && piece_cuts_ok(
        spans.last(),
        total_blen(spans.drop_last()),
        s,
        e,
    ))
}

/// The spans after `delta` is applied to bytes `s..e`.
pub open spec fn styled(spans: Seq<SpanView>, s: int, e: int, delta: StyleView) -> Seq<SpanView>
    decreases spans.len(),
{
    if spans.len() == 0 {
        Seq::empty()
    } else {
        styled(spans.drop_last(), s, e, delta) + span_pieces(
            spans.last(),
            total_blen(spans.drop_last()),
            s,
            e,
            delta,
        )
    }
}

/// The spans that an inline style is applied to: the stored ones, else one
/// plain span holding the whole text (none for an empty text).
pub open spec fn base_spans(text: Seq<char>, spans: Option<Seq<SpanView>>) -> Seq<SpanView> {
    match spans {
        Some(sp) => sp,
        None => if text.len() == 0 {
            Seq::empty()
        } else {
            seq![SpanView { text, style: plain_style() }]
        },
    }
}

/// Stored spans after applying a style: none when the result is empty.
pub open spec fn stored(spans: Seq<SpanView>) -> Option<Seq<SpanView>> {
    if spans.len() == 0 {
        None
    } else {
        Some(spans)
    }
}

proof fn lemma_take_prefix_props(spans: Seq<SpanView>, i: int, s: int, e: int)
    requires
        0 <= i <= spans.len(),
    ensures
        total_blen(spans.take(i)) <= total_blen(spans),
        cuts_ok(spans, s, e) ==> cuts_ok(spans.take(i), s, e),
    decreases spans.len() - i,
{
    if i < spans.len() {
        lemma_take_prefix_props(spans, i + 1, s, e);
        assert(spans.take(i + 1).drop_last() =~= spans.take(i));
    } else {
        assert(spans.take(i) =~= spans);
    }
}

proof fn lemma_pieces_cover(sp: SpanView, pos: int, s: int, e: int, delta: StyleView)
    requires
        piece_cuts_ok(sp, pos, s, e),
    ensures
        concat_text(span_pieces(sp, pos, s, e, delta)) == sp.text,
{
    let b = encode_utf8(sp.text);
    let len = blen(sp.text);
    let ls = clamp(s - pos, 0, len);
    let le = clamp(e - pos, 0, len);
    let p = span_pieces(sp, pos, s, e, delta);
    if !overlaps(pos, len, s, e) {
        assert(p.drop_last() =~= Seq::<SpanView>::empty());
        assert(concat_text(Seq::<SpanView>::empty()) == Seq::<char>::empty());
        assert(concat_text(p) =~= sp.text);
    } else {
        let rest = b.subrange(ls, len);
        decode_utf8_split(b, ls);
        valid_utf8_split(b, ls);
        decode_utf8_split(rest, le - ls);
        assert(rest.subrange(0, le - ls) =~= b.subrange(ls, le));
        assert(rest.subrange(le - ls, rest.len() as int) =~= b.subrange(le, len));
        assert(b.subrange(0, len) =~= b);
        assert(decode_utf8(b) == sp.text);
        let a1 = byte_slice(sp.text, 0, ls);
        let a2 = byte_slice(sp.text, ls, le);
        let a3 = byte_slice(sp.text, le, len);
        assert(a1 + a2 + a3 =~= sp.text);
        let q1: Seq<SpanView> = if ls > 0 {
            seq![SpanView { text: a1, style: sp.style }]
        } else {
            Seq::empty()
        };
        let q2: Seq<SpanView> = if ls < le {
            seq![SpanView { text: a2, style: overlay(sp.style, delta) }]
        } else {
            Seq::empty()
        };
        let q3: Seq<SpanView> = if le < len {
            seq![SpanView { text: a3, style: sp.style }]
        } else {
            Seq::empty()
        };
        assert(p == q1 + q2 + q3);
        lemma_concat_append(q1 + q2, q3);
        lemma_concat_append(q1, q2);
        lemma_concat_single_or_empty(q1);
        lemma_concat_single_or_empty(q2);
        lemma_concat_single_or_empty(q3);
        assert(ls == 0 ==> a1 =~= Seq::<char>::empty());
        assert(ls == le ==> a2 =~= Seq::<char>::empty());
        assert(le == len ==> a3 =~= Seq::<char>::empty());
        assert(concat_text(q1) + concat_text(q2) + concat_text(q3) =~= sp.text);
    }
}

proof fn lemma_concat_single_or_empty(q: Seq<SpanView>)
    ensures
        q.len() == 0 ==> concat_text(q) == Seq::<char>::empty(),
        q.len() == 1 ==> concat_text(q) == q[0].text,
{
    if q.len() == 1 {
        assert(q.drop_last() =~= Seq::<SpanView>::empty());
        assert(concat_text(Seq::<SpanView>::empty()) == Seq::<char>::empty());
        assert(concat_text(q) =~= q[0].text);
    }
}

/// The text of a concatenation is the concatenation of the texts.
proof fn lemma_concat_append(a: Seq<SpanView>, b: Seq<SpanView>)
    ensures
        concat_text(a + b) == concat_text(a) + concat_text(b),
    decreases b.len(),
{
    if b.len() == 0 {
        assert(a + b =~= a);
        assert(concat_text(a) + concat_text(b) =~= concat_text(a));
    } else {
        assert((a + b).drop_last() =~= a + b.drop_last());
        lemma_concat_append(a, b.drop_last());
        assert(concat_text(a + b) =~= concat_text(a) + concat_text(b));
    }
}

/// Applying an inline style never changes the text: the resulting spans'
/// texts, put one after the other, are exactly the texts of the spans styled.
pub proof fn lemma_styled_keeps_text(spans: Seq<SpanView>, s: int, e: int, delta: StyleView)
    requires
        cuts_ok(spans, s, e),
    ensures
        concat_text(styled(spans, s, e, delta)) == concat_text(spans),
    decreases spans.len(),
{
    if spans.len() > 0 {
        let init = spans.drop_last();
        lemma_styled_keeps_text(init, s, e, delta);
        let pos = total_blen(init);
        lemma_pieces_cover(spans.last(), pos, s, e, delta);
        lemma_concat_append(styled(init, s, e, delta), span_pieces(spans.last(), pos, s, e, delta));
    }
}

/// Number of bytes of a string's UTF-8 encoding.
pub fn byte_len(s: &String) -> (r: usize)
    ensures
        r == blen(s@),
{
    s.as_str().as_bytes().len()
}

/// Whether `apply_style` can cut the spans at `s..e`: every cut falls on a
/// character boundary, and the total byte length is representable.
pub fn cuts_fit(spans: &Vec<InlineSpan>, s: usize, e: usize) -> (ok: bool)
    requires
        s <= e,
    ensures
        ok == (cuts_ok(views(spans@), s as int, e as int) && total_blen(views(spans@)) <= usize::MAX),
{
    let ghost sv = views(spans@);
    let mut pos: usize = 0;
    let mut i: usize = 0;
    while i < spans.len()
        invariant
            s <= e,
            i <= spans@.len(),
            sv == views(spans@),
            pos as int == total_blen(sv.take(i as int)),
            cuts_ok(sv.take(i as int), s as int, e as int),
        decreases spans@.len() - i,
    {
        let t = spans[i].text.as_str();
        let len = byte_len(&spans[i].text);
        proof {
            assert(sv.take(i + 1).drop_last() =~= sv.take(i as int));
            lemma_take_prefix_props(sv, i + 1, s as int, e as int);
        }
        if len > usize::MAX - pos {
            return false;
        }
        if !(e <= pos || s >= pos + len) {
            let ls: usize = if s > pos {
                if s - pos < len {
                    s - pos
                } else {
                    len
                }
            } else {
                0
            };
            let le: usize = if e > pos {
                if e - pos < len {
                    e - pos
                } else {
                    len
                }
            } else {
                0
            };
            if !t.is_char_boundary(ls) {
                return false;
            }
            let (_, rest) = t.split_at(ls);
            if !rest.is_char_boundary(le - ls) {
                proof {
                    assert(rest.spec_bytes() =~= encode_utf8(sv[i as int].text).subrange(
                        ls as int,
                        len as int,
                    ));
                }
                return false;
            }
            proof {
                assert(rest.spec_bytes() =~= encode_utf8(sv[i as int].text).subrange(
                    ls as int,
                    len as int,
                ));
            }
        }
        pos = pos + len;
        i += 1;
    }
    proof {
        assert(sv.take(i as int) =~= sv);
    }
    true
}

/// `base` with `delta` laid over it.
pub fn overlay_style(base: &InlineStyle, delta: &InlineStyle) -> (r: InlineStyle)
    ensures
        r@ == overlay(base@, delta@),
{
    InlineStyle {
        bold: base.bold || delta.bold,
        italic: base.italic || delta.italic,
        underline: base.underline || delta.underline,
        code: base.code || delta.code,
        link: if delta.link.is_some() {
            copy_opt_str(&delta.link)
        } else {
            copy_opt_str(&base.link)
        },
        color: if delta.color.is_some() {
            copy_opt_str(&delta.color)
        } else {
            copy_opt_str(&base.color)
        },
        highlight: if delta.highlight.is_some() {
            copy_opt_str(&delta.highlight)
        } else {
            copy_opt_str(&base.highlight)
        },
        font_size_px: if delta.font_size_px.is_some() {
            delta.font_size_px
        } else {
            base.font_size_px
        },
    }
}

/// Appends the pieces that one span becomes.
fn push_pieces(
    acc: &mut Vec<InlineSpan>,
    span: &InlineSpan,
    pos: usize,
    s: usize,
    e: usize,
    delta: &InlineStyle,
)
    requires
        s <= e,
        piece_cuts_ok(span@, pos as int, s as int, e as int),
        pos + blen(span.text@) <= usize::MAX,
    ensures
        views(final(acc)@) == views(old(acc)@) + span_pieces(
            span@,
            pos as int,
            s as int,
            e as int,
            delta@,
        ),
{
    let ghost a0 = views(acc@);
    let t = span.text.as_str();
    let len = byte_len(&span.text);
    if e <= pos || s >= pos + len {
        acc.push(span.deep_copy());
        assert(views(acc@) =~= a0 + seq![span@]);
        return ;
    }
    let ls: usize = if s > pos {
        if s - pos < len {
            s - pos
        } else {
            len
        }
    } else {
        0
    };
    let le: usize = if e > pos {
        if e - pos < len {
            e - pos
        } else {
            len
        }
    } else {
        0
    };
    let ghost b = encode_utf8(span.text@);
    let (head, rest) = t.split_at(ls);
    assert(rest.spec_bytes() =~= b.subrange(ls as int, len as int));
    let (mid, tail) = rest.split_at(le - ls);
    assert(mid.spec_bytes() =~= b.subrange(ls as int, le as int));
    assert(tail.spec_bytes() =~= b.subrange(le as int, len as int));
    let ghost head_piece: Seq<SpanView> = if ls > 0 {
        seq![SpanView { text: byte_slice(span.text@, 0, ls as int), style: span.style@ }]
    } else {
        Seq::empty()
    };
    let ghost mid_piece: Seq<SpanView> = if ls < le {
        seq![SpanView { text: byte_slice(span.text@, ls as int, le as int), style: overlay(span.style@, delta@) }]
    } else {
        Seq::empty()
    };
    let ghost tail_piece: Seq<SpanView> = if le < len {
        seq![SpanView { text: byte_slice(span.text@, le as int, len as int), style: span.style@ }]
    } else {
        Seq::empty()
    };
    if ls > 0 {
        acc.push(InlineSpan { text: head.to_owned(), style: span.style.deep_copy() });
    }
    assert(views(acc@) =~= a0 + head_piece);
    if ls < le {
        acc.push(InlineSpan { text: mid.to_owned(), style: overlay_style(&span.style, delta) });
    }
    assert(views(acc@) =~= a0 + head_piece + mid_piece);
    if le < len {
        acc.push(InlineSpan { text: tail.to_owned(), style: span.style.deep_copy() });
    }
    assert(views(acc@) =~= a0 + head_piece + mid_piece + tail_piece);
    assert(a0 + head_piece + mid_piece + tail_piece =~= a0 + span_pieces(span@, pos as int, s as int, e as int, delta@));
}

/// Applies `delta` to bytes `s..e` of the run of spans, splitting the spans
/// that the range cuts into up to three pieces.
pub fn apply_style(spans: &Vec<InlineSpan>, s: usize, e: usize, delta: &InlineStyle) -> (r: Vec<InlineSpan>)
    requires
        s <= e,
        cuts_ok(views(spans@), s as int, e as int),
        total_blen(views(spans@)) <= usize::MAX,
    ensures
        views(r@) == styled(views(spans@), s as int, e as int, delta@),
        concat_text(views(r@)) == concat_text(views(spans@)),
{
    let ghost sv = views(spans@);
    let mut acc: Vec<InlineSpan> = Vec::new();
    let mut pos: usize = 0;
    let mut i: usize = 0;
    while i < spans.len()
        invariant
            s <= e,
            i <= spans@.len(),
            sv == views(spans@),
            cuts_ok(sv, s as int, e as int),
            total_blen(sv) <= usize::MAX,
            pos as int == total_blen(sv.take(i as int)),
            views(acc@) == styled(sv.take(i as int), s as int, e as int, delta@),
        decreases spans@.len() - i,
    {
        proof {
            assert(sv.take(i + 1).drop_last() =~= sv.take(i as int));
            lemma_take_prefix_props(sv, i + 1, s as int, e as int);
        }
        push_pieces(&mut acc, &spans[i], pos, s, e, delta);
        pos = pos + byte_len(&spans[i].text);
        i += 1;
    }
    proof {
        assert(sv.take(i as int) =~= sv);
        lemma_styled_keeps_text(sv, s as int, e as int, delta@);
    }
    acc
}

} // verus!
