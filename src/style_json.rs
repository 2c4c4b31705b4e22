//! Style payloads in JSON: the fields the engine reads are looked up with
//! serde_json, and the styles are built from them by verified code.
use vstd::prelude::*;

use crate::doc::{opt_str, BorderStyle, BorderView, CellStyle, CellStyleView, InlineStyle, StyleView};

verus! {

/// The string value of field `key` of the JSON object `json`; none when the
/// text does not parse, is not an object, or the field is not a string.
pub uninterp spec fn json_str_field(json: Seq<char>, key: Seq<char>) -> Option<Seq<char>>;

/// The boolean value of field `key` of the JSON object `json`, if any.
pub uninterp spec fn json_bool_field(json: Seq<char>, key: Seq<char>) -> Option<bool>;

/// The value of field `key` of the JSON object `json` as a `u64`, if it is a
/// number that fits.
pub uninterp spec fn json_u64_field(json: Seq<char>, key: Seq<char>) -> Option<u64>;

/// Whether field `key` of the JSON object `json` is itself an object.
pub uninterp spec fn json_object_field(json: Seq<char>, key: Seq<char>) -> bool;

/// The string value of field `sub` of the object in field `key` of `json`.
pub uninterp spec fn json_nested_str_field(json: Seq<char>, key: Seq<char>, sub: Seq<char>) -> Option<Seq<char>>;

/// The value of field `sub` of the object in field `key` of `json` as a `u64`.
pub uninterp spec fn json_nested_u64_field(json: Seq<char>, key: Seq<char>, sub: Seq<char>) -> Option<u64>;

/// Relies on serde_json::from_str into a Value, then Value::get and
/// Value::as_str: the string field `key` of the parsed object.
#[verifier::external_body]
fn str_field(json: &str, key: &str) -> (r: Option<String>)
    ensures
        opt_str(r) == json_str_field(json@, key@),
{
    let v = serde_json::from_str::<serde_json::Value>(json).ok();
    v.as_ref().and_then(|v| v.get(key)).and_then(|x| x.as_str()).map(|x| x.to_string())
}

/// Relies on serde_json::from_str into a Value, then Value::get and
/// Value::as_bool: the boolean field `key` of the parsed object.
#[verifier::external_body]
fn bool_field(json: &str, key: &str) -> (r: Option<bool>)
    ensures
        r == json_bool_field(json@, key@),
{
    let v = serde_json::from_str::<serde_json::Value>(json).ok();
    v.as_ref().and_then(|v| v.get(key)).and_then(|x| x.as_bool())
}

/// Relies on serde_json::from_str into a Value, then Value::get and
/// Value::as_u64: the unsigned integer field `key` of the parsed object.
#[verifier::external_body]
fn u64_field(json: &str, key: &str) -> (r: Option<u64>)
    ensures
        r == json_u64_field(json@, key@),
{
    let v = serde_json::from_str::<serde_json::Value>(json).ok();
    v.as_ref().and_then(|v| v.get(key)).and_then(|x| x.as_u64())
}

/// Relies on serde_json::from_str into a Value, then Value::get and
/// Value::as_object: whether field `key` of the parsed object is an object.
#[verifier::external_body]
fn object_field(json: &str, key: &str) -> (r: bool)
    ensures
        r == json_object_field(json@, key@),
{
    let v = serde_json::from_str::<serde_json::Value>(json).ok();
    v.as_ref().and_then(|v| v.get(key)).and_then(|x| x.as_object()).is_some()
}

/// Relies on serde_json::from_str into a Value, then Value::get,
/// Value::as_object, Map::get and Value::as_str: the string field `sub` of the
/// object in field `key`.
#[verifier::external_body]
fn nested_str_field(json: &str, key: &str, sub: &str) -> (r: Option<String>)
    ensures
        opt_str(r) == json_nested_str_field(json@, key@, sub@),
{
    let v = serde_json::from_str::<serde_json::Value>(json).ok();
    let o = v.as_ref().and_then(|v| v.get(key)).and_then(|x| x.as_object());
    o.and_then(|o| o.get(sub)).and_then(|x| x.as_str()).map(|x| x.to_string())
}

/// Relies on serde_json::from_str into a Value, then Value::get,
/// Value::as_object, Map::get and Value::as_u64: the unsigned integer field
/// `sub` of the object in field `key`.
#[verifier::external_body]
fn nested_u64_field(json: &str, key: &str, sub: &str) -> (r: Option<u64>)
    ensures
        r == json_nested_u64_field(json@, key@, sub@),
{
    let v = serde_json::from_str::<serde_json::Value>(json).ok();
    let o = v.as_ref().and_then(|v| v.get(key)).and_then(|x| x.as_object());
    o.and_then(|o| o.get(sub)).and_then(|x| x.as_u64())
}

/// Border color used when a border object names none.
pub open spec fn default_border_color() -> Seq<char> {
    "#000"@
}

/// The cell style described by the fields read from a style payload: the
/// background if it is a string, and a border if `border` is an object, with
/// a default color of `#000` and width 1 for what it leaves out.
pub open spec fn cell_style_of(
    background: Option<Seq<char>>,
    border: bool,
    color: Option<Seq<char>>,
    width: Option<u64>,
) -> CellStyleView {
    CellStyleView {
        background,
        border: if border {
            Some(
                BorderView {
                    color: match color {
                        Some(c) => c,
                        None => default_border_color(),
                    },
                    width_px: match width {
                        Some(w) => w as u32,
                        None => 1,
                    },
                },
            )
        } else {
            None
        },
    }
}

/// The cell style that a JSON style payload describes.
pub open spec fn cell_style_of_json(json: Seq<char>) -> CellStyleView {
    cell_style_of(
        json_str_field(json, "background"@),
        json_object_field(json, "border"@),
        json_nested_str_field(json, "border"@, "color"@),
        json_nested_u64_field(json, "border"@, "width_px"@),
    )
}

/// Builds a cell style from the fields of a style payload.
pub fn cell_style_from_fields(
    background: Option<String>,
    border: bool,
    color: Option<String>,
    width: Option<u64>,
) -> (r: CellStyle)
    ensures
        r@ == cell_style_of(opt_str(background), border, opt_str(color), width),
{
    let b = if border {
        let c = match color {
            Some(c) => c,
            None => {
                proof {
                    reveal_strlit("#000");
                }
                "#000".to_owned()
            },
        };
        let w: u32 = match width {
            Some(w) => #[verifier::truncate] (w as u32),
            None => 1,
        };
        Some(BorderStyle { color: c, width_px: w })
    } else {
        None
    };
    CellStyle { background, border: b }
}

/// Reads a cell style payload: `background` (a string) and `border` (an
/// object with `color` and `width_px`). Fields that are missing or of
/// another type are ignored; a payload that does not parse gives no style.
pub fn parse_cell_style(json: &str) -> (r: CellStyle)
    ensures
        r@ == cell_style_of_json(json@),
{
    let background = str_field(json, "background");
    let border = object_field(json, "border");
    let color = nested_str_field(json, "border", "color");
    let width = nested_u64_field(json, "border", "width_px");
    cell_style_from_fields(background, border, color, width)
}

/// The inline style delta described by the fields read from a style
/// payload: a flag is set when its field is `true`, an optional field when
/// it is present with the right type.
pub open spec fn inline_style_of(
    bold: Option<bool>,
    italic: Option<bool>,
    underline: Option<bool>,
    color: Option<Seq<char>>,
    highlight: Option<Seq<char>>,
    font_size: Option<u64>,
) -> StyleView {
    StyleView {
        bold: bold == Some(true),
        italic: italic == Some(true),
        underline: underline == Some(true),
        code: false,
        link: None,
        color,
        highlight,
        font_size_px: match font_size {
            Some(f) => Some(f as u32),
            None => None,
        },
    }
}

/// The inline style delta that a JSON style payload describes.
pub open spec fn inline_style_of_json(json: Seq<char>) -> StyleView {
    inline_style_of(
        json_bool_field(json, "bold"@),
        json_bool_field(json, "italic"@),
        json_bool_field(json, "underline"@),
        json_str_field(json, "color"@),
        json_str_field(json, "highlight"@),
        json_u64_field(json, "font_size_px"@),
    )
}

/// Builds an inline style delta from the fields of a style payload.
pub fn inline_style_from_fields(
    bold: Option<bool>,
    italic: Option<bool>,
    underline: Option<bool>,
    color: Option<String>,
    highlight: Option<String>,
    font_size: Option<u64>,
) -> (r: InlineStyle)
    ensures
        r@ == inline_style_of(bold, italic, underline, opt_str(color), opt_str(highlight), font_size),
{
    InlineStyle {
        bold: match bold {
            Some(b) => b,
            None => false,
        },
        italic: match italic {
            Some(b) => b,
            None => false,
        },
        underline: match underline {
            Some(b) => b,
            None => false,
        },
        code: false,
        link: None,
        color,
        highlight,
        font_size_px: match font_size {
            Some(f) => Some(#[verifier::truncate] (f as u32)),
            None => None,
        },
    }
}

/// Reads an inline style payload: `bold`, `italic`, `underline` (booleans),
/// `color`, `highlight` (strings) and `font_size_px` (a number). Other or
/// ill-typed fields are ignored; a payload that does not parse gives the
/// empty delta.
pub fn parse_inline_style(json: &str) -> (r: InlineStyle)
    ensures
        r@ == inline_style_of_json(json@),
{
    let bold = bool_field(json, "bold");
    let italic = bool_field(json, "italic");
    let underline = bool_field(json, "underline");
    let color = str_field(json, "color");
    let highlight = str_field(json, "highlight");
    let font_size = u64_field(json, "font_size_px");
    inline_style_from_fields(bold, italic, underline, color, highlight, font_size)
}

} // verus!
