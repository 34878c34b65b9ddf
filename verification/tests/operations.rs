use backend::document::{Cell, Document};
use backend::error::QueryError;
use backend::facade::{Action, Event, Operation};
use backend::filter::{FieldCondition, TableFilter};
use backend::literal::{Literal, Value};
use backend::schema::{Schema, SqliteType};
use backend::updater::Updater;

fn table() -> Schema {
    Schema::new("notes").column("title", SqliteType::Text).column("pub_date", SqliteType::Integer)
}

fn by_title(s: &str) -> TableFilter {
    TableFilter(vec![(
        FieldCondition("title".to_string(), "=".to_string(), Literal::Text(s.to_string())),
        String::new(),
    )])
}

fn columns() -> Vec<String> {
    vec!["title".to_string(), "pub_date".to_string()]
}

fn stored_row(title: &str, date: i64) -> Vec<Cell> {
    vec![
        Cell { column: "title".to_string(), value: Literal::Text(title.to_string()) },
        Cell { column: "pub_date".to_string(), value: Literal::Integer(date) },
    ]
}

fn pending(operation: Operation) -> Operation {
    operation.finish().unwrap_err()
}

#[test]
fn read_runs_from_acquire_to_finish() {
    let schema = table();
    let op = Operation::read(&schema, &by_title("Test"), &columns()).unwrap();
    assert_eq!(op.action(), Action::Acquire);
    assert_eq!(op.statement().sql, "SELECT * FROM notes WHERE title = ?");
    assert_eq!(op.statement().values, vec![Value::Text("Test".to_string())]);

    let op = op.step(&schema, Event::Connected);
    assert_eq!(op.action(), Action::Execute);
    let op = op.step(&schema, Event::Executed(vec![stored_row("Test", 0)]));
    assert_eq!(op.action(), Action::Release);
    let op = op.step(&schema, Event::Released);
    assert_eq!(op.action(), Action::Finish);
    assert_eq!(
        op.finish().unwrap(),
        Ok(vec![Document {
            fields: vec![
                ("title".to_string(), Value::Text("Test".to_string())),
                ("pub_date".to_string(), Value::Integer(0)),
            ],
        }])
    );
}

#[test]
fn update_yields_no_documents() {
    let schema = table();
    let updater =
        Updater::new(by_title("Test")).assign("pub_date".to_string(), Literal::Integer(-2000));
    let op = Operation::update(&schema, &updater).unwrap();
    assert_eq!(op.action(), Action::Acquire);
    assert_eq!(op.statement().sql, "UPDATE notes SET pub_date = ? WHERE title = ?");
    assert_eq!(op.statement().values, vec![Value::Integer(-2000), Value::Text("Test".to_string())]);
    let op = op
        .step(&schema, Event::Connected)
        .step(&schema, Event::Executed(vec![]))
        .step(&schema, Event::Released);
    assert_eq!(op.finish().unwrap(), Ok(vec![]));
}

#[test]
fn update_ignores_rows_that_the_engine_returns() {
    let schema = table();
    let updater =
        Updater::new(by_title("Test")).assign("pub_date".to_string(), Literal::Integer(1));
    let op = Operation::update(&schema, &updater)
        .unwrap()
        .step(&schema, Event::Connected)
        .step(&schema, Event::Executed(vec![stored_row("Test", 1)]))
        .step(&schema, Event::Released);
    assert_eq!(op.finish().unwrap(), Ok(vec![]));
}

#[test]
fn request_with_a_fault_begins_nothing() {
    let schema = table();
    let bad = TableFilter(vec![(
        FieldCondition(
            "pub_date".to_string(),
            "=".to_string(),
            Literal::Text("notanumber".to_string()),
        ),
        String::new(),
    )]);
    assert_eq!(Operation::read(&schema, &bad, &columns()).unwrap_err(), QueryError::TypeMismatch);
    assert_eq!(
        Operation::read(&schema, &by_title("Test"), &vec!["body".to_string()]).unwrap_err(),
        QueryError::UnknownColumn
    );
    assert_eq!(
        Operation::update(&schema, &Updater::new(by_title("Test"))).unwrap_err(),
        QueryError::EmptyUpdateSet
    );
}

#[test]
fn refusal_of_the_pool_ends_the_operation() {
    let schema = table();
    let op = Operation::read(&schema, &by_title("Test"), &columns()).unwrap();
    let op = op.step(&schema, Event::Refused);
    assert_eq!(op.action(), Action::Finish);
    assert_eq!(op.finish().unwrap(), Err(QueryError::ConnectionAcquisitionFailure));
}

#[test]
fn failure_of_the_engine_is_reported_after_the_release() {
    let schema = table();
    let op = Operation::read(&schema, &by_title("Test"), &columns())
        .unwrap()
        .step(&schema, Event::Connected)
        .step(&schema, Event::Failed);
    assert_eq!(op.action(), Action::Release);
    let op = pending(op).step(&schema, Event::Released);
    assert_eq!(op.finish().unwrap(), Err(QueryError::StatementExecutionFailure));
}

#[test]
fn row_that_cannot_be_read_is_reported_after_the_release() {
    let schema = table();
    let rows = vec![
        stored_row("a", 1),
        vec![Cell { column: "title".to_string(), value: Literal::Text("b".to_string()) }],
    ];
    let op = Operation::read(&schema, &TableFilter(vec![]), &columns())
        .unwrap()
        .step(&schema, Event::Connected)
        .step(&schema, Event::Executed(rows));
    assert_eq!(op.action(), Action::Release);
    let op = op.step(&schema, Event::Released);
    assert_eq!(op.finish().unwrap(), Err(QueryError::RowDecodeFailure));
}

#[test]
fn result_is_held_back_until_the_operation_is_done() {
    let schema = table();
    let op = Operation::read(&schema, &by_title("Test"), &columns()).unwrap();
    let op = pending(op);
    assert_eq!(op.action(), Action::Acquire);
    let op = pending(op.step(&schema, Event::Connected));
    assert_eq!(op.action(), Action::Execute);
    let op = pending(op.step(&schema, Event::Executed(vec![])));
    assert_eq!(op.action(), Action::Release);
    assert!(op.step(&schema, Event::Released).finish().is_ok());
}

#[test]
fn events_that_are_not_waited_for_change_nothing() {
    let schema = table();
    let mut op = Operation::read(&schema, &by_title("Test"), &columns()).unwrap();
    for event in [Event::Executed(vec![stored_row("x", 1)]), Event::Failed, Event::Released] {
        op = op.step(&schema, event);
        assert_eq!(op.action(), Action::Acquire);
    }
    op = op.step(&schema, Event::Connected);
    for event in [Event::Connected, Event::Refused, Event::Released] {
        op = op.step(&schema, event);
        assert_eq!(op.action(), Action::Execute);
    }
    op = op.step(&schema, Event::Executed(vec![stored_row("Test", 0)]));
    for event in [Event::Connected, Event::Refused, Event::Failed, Event::Executed(vec![])] {
        op = op.step(&schema, event);
        assert_eq!(op.action(), Action::Release);
    }
    op = op.step(&schema, Event::Released);
    for event in [Event::Connected, Event::Refused, Event::Failed, Event::Released] {
        op = op.step(&schema, event);
        assert_eq!(op.action(), Action::Finish);
    }
    assert_eq!(
        op.finish().unwrap(),
        Ok(vec![Document {
            fields: vec![
                ("title".to_string(), Value::Text("Test".to_string())),
                ("pub_date".to_string(), Value::Integer(0)),
            ],
        }])
    );
}
