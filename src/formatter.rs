//! Renders one cell as display text, by its column's wire type.
use vstd::prelude::*;
use vstd::string::to_string_from_display_ensures;

use crate::model::{cell_fits, Cell, CellValue, WireType};
use crate::text::{decimal_number_text, decimal_text, int_text, integer_text, uuid_text, uuid_text_of};

verus! {

/// The text that marks a SQL null (and a value with no text cast).
pub open spec fn null_text() -> Seq<char> {
    seq!['N', 'U', 'L', 'L']
}

/// Whether `r` is the display text of cell `c` in a column of type `tag`.
/// Date-times and JSON documents render through their own `Display`; every
/// other value's text is given exactly.
pub open spec fn formats_as(tag: WireType, c: Cell, r: String) -> bool {
    match c {
        None => r@ == null_text(),
        Some(v) => match v {
            CellValue::Bool(b) => r@ == bool_text(b),
            CellValue::Int(n) => r@ == int_text(n as int),
            CellValue::Float(s) => r@ == s@,
            CellValue::Decimal { mantissa, scale } => r@ == decimal_number_text(mantissa as int, scale as nat),
            CellValue::Uuid(u) => r@ == uuid_text_of(u),
            CellValue::Timestamp(t) => to_string_from_display_ensures::<time::OffsetDateTime>(&t, r),
            CellValue::Json(j) => to_string_from_display_ensures::<serde_json::Value>(&j, r),
            CellValue::Text(s) => r@ == s@,
            CellValue::Uncastable => r@ == null_text(),
        },
    }
}

/// Lowercase `true` or `false`.
pub open spec fn bool_text(b: bool) -> Seq<char> {
    if b {
        seq!['t', 'r', 'u', 'e']
    } else {
        seq!['f', 'a', 'l', 's', 'e']
    }
}

fn bool_string(b: bool) -> (r: String)
    ensures
        r@ == bool_text(b),
{
    proof {
        reveal_strlit("true");
        reveal_strlit("false");
    }
    let r = if b {
        String::from_str("true")
    } else {
        String::from_str("false")
    };
    assert(r@ =~= bool_text(b));
    r
}

fn null_string() -> (r: String)
    ensures
        r@ == null_text(),
{
    proof {
        reveal_strlit("NULL");
    }
    String::from_str("NULL")
}

/// Renders cell `c` of a column whose wire type is `tag`. A null renders as
/// `NULL` whatever the type; a column of another type shows the text its value
/// was cast to, or `NULL` where no cast exists, even for a value that is not null.
pub fn format_value(c: &Cell, tag: WireType) -> (r: String)
    requires
        cell_fits(tag, *c),
    ensures
        formats_as(tag, *c, r),
        c.is_none() ==> r@ == null_text(),
        tag == WireType::Other ==> (*c matches Some(CellValue::Text(s)) ==> r@ == s@),
        tag == WireType::Other ==> (!(*c matches Some(CellValue::Text(_))) ==> r@ == null_text()),
{
    match c {
        None => null_string(),
        Some(v) => match v {
            CellValue::Bool(b) => bool_string(*b),
            CellValue::Int(n) => integer_text(*n),
            CellValue::Float(s) => s.clone(),
            CellValue::Decimal { mantissa, scale } => decimal_text(*mantissa, *scale),
            CellValue::Uuid(u) => uuid_text(*u),
            CellValue::Timestamp(t) => t.to_string(),
            CellValue::Json(j) => j.to_string(),
            CellValue::Text(s) => s.clone(),
            CellValue::Uncastable => null_string(),
        },
    }
}

} // verus!
