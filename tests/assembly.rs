use pg_query_bridge::assembler::assemble_result;
use pg_query_bridge::model::{CellValue, Column, QueryRows, WireType};

fn column(name: &str, tag: WireType) -> Column {
    Column { name: name.to_string(), tag }
}

#[test]
fn select_int_with_alias() {
    let q = QueryRows {
        schema: vec![column("n", WireType::Int4)],
        rows: vec![vec![Some(CellValue::Int(1))]],
    };
    let r = assemble_result(&q);
    assert_eq!(r.columns, vec!["n".to_string()]);
    assert_eq!(r.rows, vec![vec!["1".to_string()]]);
}

#[test]
fn select_null_int() {
    let q = QueryRows { schema: vec![column("int4", WireType::Int4)], rows: vec![vec![None]] };
    let r = assemble_result(&q);
    assert_eq!(r.columns, vec!["int4".to_string()]);
    assert_eq!(r.rows, vec![vec!["NULL".to_string()]]);
}

#[test]
fn select_true_false() {
    let q = QueryRows {
        schema: vec![column("bool", WireType::Bool), column("bool", WireType::Bool)],
        rows: vec![vec![Some(CellValue::Bool(true)), Some(CellValue::Bool(false))]],
    };
    let r = assemble_result(&q);
    assert_eq!(r.rows, vec![vec!["true".to_string(), "false".to_string()]]);
}

#[test]
fn zero_rows_drop_the_schema() {
    let q = QueryRows {
        schema: vec![
            column("id", WireType::Int8),
            column("name", WireType::Other),
            column("price", WireType::Numeric),
        ],
        rows: vec![],
    };
    let r = assemble_result(&q);
    assert!(r.columns.is_empty());
    assert!(r.rows.is_empty());
}

#[test]
fn every_row_has_the_schema_width() {
    let q = QueryRows {
        schema: vec![column("id", WireType::Int8), column("price", WireType::Numeric)],
        rows: vec![
            vec![Some(CellValue::Int(1)), Some(CellValue::Decimal { mantissa: 1999, scale: 2 })],
            vec![Some(CellValue::Int(2)), None],
            vec![None, Some(CellValue::Decimal { mantissa: 5, scale: 0 })],
        ],
    };
    let r = assemble_result(&q);
    assert_eq!(r.rows.len(), 3);
    for row in &r.rows {
        assert_eq!(row.len(), 2);
    }
    assert_eq!(r.rows[0], vec!["1".to_string(), "19.99".to_string()]);
    assert_eq!(r.rows[1], vec!["2".to_string(), "NULL".to_string()]);
    assert_eq!(r.rows[2], vec!["NULL".to_string(), "5".to_string()]);
}

#[test]
fn duplicate_column_names_are_kept_in_order() {
    let q = QueryRows {
        schema: vec![
            column("id", WireType::Int4),
            column("id", WireType::Uuid),
            column("note", WireType::Other),
        ],
        rows: vec![vec![
            Some(CellValue::Int(7)),
            Some(CellValue::Uuid(1)),
            Some(CellValue::Text("NULL".to_string())),
        ]],
    };
    let r = assemble_result(&q);
    assert_eq!(r.columns, vec!["id".to_string(), "id".to_string(), "note".to_string()]);
    assert_eq!(
        r.rows,
        vec![vec![
            "7".to_string(),
            "00000000-0000-0000-0000-000000000001".to_string(),
            "NULL".to_string()
        ]]
    );
}
