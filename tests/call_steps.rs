use pg_query_bridge::bridge::{next_step, Action, Event, Stage};
use pg_query_bridge::model::{CellValue, Column, QueryRows, WireType};

#[test]
fn connect_failure_replies_with_driver_text() {
    let msg = "error connecting to server: Connection refused (os error 111)".to_string();
    let (stage, action) = next_step(Stage::Connecting, Event::ConnectFailed(msg.clone()));
    assert_eq!(stage, Stage::Finished);
    match action {
        Action::Reply { outcome, stop_driver } => {
            assert_eq!(outcome, Err(msg));
            assert!(!stop_driver);
        }
        Action::RunQuery => panic!("no query may run without a connection"),
    }
}

#[test]
fn syntax_error_after_connecting() {
    let (stage, action) = next_step(Stage::Connecting, Event::Connected);
    assert_eq!(stage, Stage::Querying);
    assert!(matches!(action, Action::RunQuery));
    let msg = "db error: ERROR: syntax error at or near \"SELEC\"".to_string();
    let (stage, action) = next_step(stage, Event::QueryFailed(msg.clone()));
    assert_eq!(stage, Stage::Finished);
    match action {
        Action::Reply { outcome, stop_driver } => {
            assert_eq!(outcome, Err(msg));
            assert!(stop_driver);
        }
        Action::RunQuery => panic!("the call must end after a failed query"),
    }
}

#[test]
fn rows_received_reply_with_the_table() {
    let q = QueryRows {
        schema: vec![Column { name: "n".to_string(), tag: WireType::Int4 }],
        rows: vec![vec![Some(CellValue::Int(1))]],
    };
    let (stage, action) = next_step(Stage::Querying, Event::RowsReceived(q));
    assert_eq!(stage, Stage::Finished);
    match action {
        Action::Reply { outcome, stop_driver } => {
            let table = outcome.unwrap();
            assert_eq!(table.columns, vec!["n".to_string()]);
            assert_eq!(table.rows, vec![vec!["1".to_string()]]);
            assert!(stop_driver);
        }
        Action::RunQuery => panic!("the call must end once rows are in"),
    }
}
