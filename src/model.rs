//! The typed values a result cell can hold, the wire type tags of columns,
//! and the table handed back to the caller.
use vstd::prelude::*;

use crate::text::decimal_in_range;

verus! {

/// Declares the time crate's date-time so a cell can carry it.
#[verifier::external_type_specification]
#[verifier::external_body]
pub struct ExOffsetDateTime(time::OffsetDateTime);

/// Declares serde_json's document type so a cell can carry it.
#[verifier::external_type_specification]
#[verifier::external_body]
pub struct ExJsonValue(serde_json::Value);

/// The database's runtime type of a column.
#[derive(Debug, Clone, Copy, PartialEq, Eq, Structural)]
pub enum WireType {
    Bool,
    Int2,
    Int4,
    Int8,
    Float4,
    Float8,
    Numeric,
    Uuid,
    Timestamp,
    TimestampTz,
    Json,
    Jsonb,
    /// Any type without a dedicated rendering; read through a text cast.
    Other,
}

/// A non-null value, decoded as its column's type asks.
#[derive(Debug, PartialEq)]
pub enum CellValue {
    Bool(bool),
    /// A value of any integer column (16, 32 or 64 bits wide).
    Int(i64),
    /// A floating-point value, already in the platform's default float text.
    Float(String),
    /// The exact decimal `mantissa * 10^-scale`, its stored scale kept.
    Decimal { mantissa: i128, scale: u32 },
    /// A UUID whose 16 bytes, big-endian, form this value.
    Uuid(u128),
    Timestamp(time::OffsetDateTime),
    Json(serde_json::Value),
    /// The text a value of another type was cast to.
    Text(String),
    /// A value of another type that has no text cast.
    Uncastable,
}

/// One cell of a row: `None` is SQL null.
pub type Cell = Option<CellValue>;

/// Whether a non-null value is of the kind that a column of type `tag` decodes to.
pub open spec fn value_fits(tag: WireType, v: CellValue) -> bool {
    match tag {
        WireType::Bool => v is Bool,
        WireType::Int2 => v matches CellValue::Int(n) && i16::MIN <= n <= i16::MAX,
        WireType::Int4 => v matches CellValue::Int(n) && i32::MIN <= n <= i32::MAX,
        WireType::Int8 => v is Int,
        WireType::Float4 | WireType::Float8 => v is Float,
        WireType::Numeric => v matches CellValue::Decimal { mantissa, scale } && decimal_in_range(
            mantissa as int,
            scale as nat,
        ),
        WireType::Uuid => v is Uuid,
        WireType::Timestamp | WireType::TimestampTz => v is Timestamp,
        WireType::Json | WireType::Jsonb => v is Json,
        WireType::Other => v is Text || v is Uncastable,
    }
}

/// Whether a cell can stand in a column of type `tag`: null always can.
pub open spec fn cell_fits(tag: WireType, c: Cell) -> bool {
    match c {
        None => true,
        Some(v) => value_fits(tag, v),
    }
}

/// A column of the result schema: its name and wire type.
#[derive(Debug, Clone)]
pub struct Column {
    pub name: String,
    pub tag: WireType,
}

/// The rows a query returned, with the schema they share.
#[derive(Debug)]
pub struct QueryRows {
    pub schema: Vec<Column>,
    pub rows: Vec<Vec<Cell>>,
}

impl QueryRows {
    /// Every row has one cell per schema column, of that column's type.
    pub open spec fn wf(&self) -> bool {
        forall|i: int|
            0 <= i < self.rows.len() ==> {
                &&& #[trigger] self.rows[i].len() == self.schema.len()
                &&& forall|j: int|
                    0 <= j < self.schema.len() ==> cell_fits(
                        self.schema[j].tag,
                        #[trigger] self.rows[i][j],
                    )
            }
    }
}

/// The table handed back to the caller: column names and one display string per cell.
#[derive(Debug, Clone, PartialEq, Eq)]
pub struct QueryResult {
    pub columns: Vec<String>,
    pub rows: Vec<Vec<String>>,
}

} // verus!
