use backend::error::QueryError;
use backend::filter::{FieldCondition, TableFilter};
use backend::literal::{Literal, Real, Value};
use backend::query::prepare_update;
use backend::schema::{Schema, SqliteType};
use backend::statement::{bind, BindSlot, Statement};
use backend::updater::Updater;

fn note_table() -> Schema {
    Schema::new("notes")
        .column("title", SqliteType::Text)
        .column("author", SqliteType::Text)
        .column("source", SqliteType::Text)
        .column("pub_date", SqliteType::Integer)
        .column("score", SqliteType::Real)
        .column("id", SqliteType::PrimaryKey)
}

fn title_is_test() -> TableFilter {
    TableFilter(vec![(
        FieldCondition("title".to_string(), "=".to_string(), Literal::Text("Test".to_string())),
        String::new(),
    )])
}

fn bind_slot(column: &str, literal: Literal) -> BindSlot {
    BindSlot { column: column.to_string(), literal }
}

#[test]
fn update_of_one_column_compiles() {
    let u = Updater::new(title_is_test()).assign("pub_date".to_string(), Literal::Integer(-2000));
    assert!(u.valid(&note_table()));
    let statement = u.compile(&note_table()).unwrap();
    assert_eq!(statement.sql, "UPDATE notes SET pub_date = ? WHERE title = ?");
    assert_eq!(
        statement.binds,
        vec![
            bind_slot("pub_date", Literal::Integer(-2000)),
            bind_slot("title", Literal::Text("Test".to_string())),
        ]
    );
    let bound = prepare_update(&note_table(), &u).unwrap();
    assert_eq!(bound.sql, "UPDATE notes SET pub_date = ? WHERE title = ?");
    assert_eq!(bound.values, vec![Value::Integer(-2000), Value::Text("Test".to_string())]);
}

#[test]
fn assignments_are_written_in_the_order_of_their_names() {
    let u = Updater::new(title_is_test())
        .assign("source".to_string(), Literal::Text("Updated body".to_string()))
        .assign("pub_date".to_string(), Literal::Integer(-2000))
        .assign("author".to_string(), Literal::Text("A".to_string()));
    let statement = u.compile(&note_table()).unwrap();
    assert_eq!(
        statement.sql,
        "UPDATE notes SET author = ?, pub_date = ?, source = ? WHERE title = ?"
    );
    assert_eq!(
        statement.binds,
        vec![
            bind_slot("author", Literal::Text("A".to_string())),
            bind_slot("pub_date", Literal::Integer(-2000)),
            bind_slot("source", Literal::Text("Updated body".to_string())),
            bind_slot("title", Literal::Text("Test".to_string())),
        ]
    );
}

#[test]
fn assigning_a_column_again_replaces_its_value() {
    let u = Updater::new(title_is_test())
        .assign("pub_date".to_string(), Literal::Integer(1))
        .assign("author".to_string(), Literal::Text("A".to_string()))
        .assign("pub_date".to_string(), Literal::Integer(2));
    assert_eq!(
        u.set(),
        &vec![
            bind_slot("author", Literal::Text("A".to_string())),
            bind_slot("pub_date", Literal::Integer(2)),
        ]
    );
    assert_eq!(u.at(), &title_is_test());
}

#[test]
fn assignment_order_does_not_depend_on_insertion_order() {
    let names = ["score", "author", "title", "pub_date", "source"];
    let mut forward = Updater::new(title_is_test());
    for n in names {
        forward = forward.assign(n.to_string(), Literal::Null);
    }
    let mut backward = Updater::new(title_is_test());
    for n in names.iter().rev() {
        backward = backward.assign(n.to_string(), Literal::Null);
    }
    assert_eq!(forward, backward);
    let listed: Vec<&str> = forward.set().iter().map(|s| s.column.as_str()).collect();
    assert_eq!(listed, vec!["author", "pub_date", "score", "source", "title"]);
}

#[test]
fn update_without_filter_ends_after_the_assignments() {
    let u = Updater::new(TableFilter(vec![])).assign("pub_date".to_string(), Literal::Integer(0));
    assert!(u.valid(&note_table()));
    let statement = u.compile(&note_table()).unwrap();
    assert_eq!(statement.sql, "UPDATE notes SET pub_date = ? ");
    assert_eq!(statement.binds, vec![bind_slot("pub_date", Literal::Integer(0))]);
}

#[test]
fn update_that_assigns_nothing_is_invalid() {
    let u = Updater::new(title_is_test());
    assert!(title_is_test().valid(&note_table()));
    assert!(!u.valid(&note_table()));
    assert_eq!(u.compile(&note_table()), Err(QueryError::EmptyUpdateSet));
    assert_eq!(prepare_update(&note_table(), &u), Err(QueryError::EmptyUpdateSet));
    let v = Updater::new(TableFilter(vec![]));
    assert!(!v.valid(&note_table()));
    assert_eq!(v.compile(&note_table()), Err(QueryError::EmptyUpdateSet));
}

#[test]
fn update_of_absent_column_is_invalid() {
    let u = Updater::new(title_is_test())
        .assign("pub_date".to_string(), Literal::Integer(0))
        .assign("body".to_string(), Literal::Text("Updated body".to_string()));
    assert!(!u.valid(&note_table()));
    assert_eq!(u.compile(&note_table()), Err(QueryError::UnknownColumn));
}

#[test]
fn update_with_invalid_filter_reports_the_filter() {
    let bad = TableFilter(vec![(
        FieldCondition("title".to_string(), "=".to_string(), Literal::Null),
        "AND".to_string(),
    )]);
    let u = Updater::new(bad);
    assert!(!u.valid(&note_table()));
    assert_eq!(u.compile(&note_table()), Err(QueryError::MalformedFilter));
}

#[test]
fn assignment_of_wrong_type_fails_before_the_filter_is_bound() {
    let u = Updater::new(title_is_test())
        .assign("pub_date".to_string(), Literal::Text("notanumber".to_string()));
    assert!(u.valid(&note_table()));
    assert_eq!(prepare_update(&note_table(), &u), Err(QueryError::TypeMismatch));
}

#[test]
fn values_are_typed_by_their_columns() {
    let u = Updater::new(title_is_test())
        .assign("score".to_string(), Literal::Integer(3))
        .assign("id".to_string(), Literal::Integer(7))
        .assign("author".to_string(), Literal::Text("A".to_string()));
    let bound = prepare_update(&note_table(), &u).unwrap();
    assert_eq!(bound.sql, "UPDATE notes SET author = ?, id = ?, score = ? WHERE title = ?");
    assert_eq!(
        bound.values,
        vec![
            Value::Text("A".to_string()),
            Value::Integer(7),
            Value::Real(Real::Whole(3)),
            Value::Text("Test".to_string()),
        ]
    );
}

#[test]
fn bind_reports_the_first_slot_that_fails() {
    let statement = Statement {
        sql: "x".to_string(),
        binds: vec![
            bind_slot("pub_date", Literal::Integer(1)),
            bind_slot("nowhere", Literal::Integer(1)),
            bind_slot("pub_date", Literal::Null),
        ],
    };
    assert_eq!(bind(&note_table(), &statement), Err(QueryError::UnknownColumn));
    let other = Statement {
        sql: "x".to_string(),
        binds: vec![
            bind_slot("pub_date", Literal::Null),
            bind_slot("nowhere", Literal::Integer(1)),
        ],
    };
    assert_eq!(bind(&note_table(), &other), Err(QueryError::TypeMismatch));
}

#[test]
fn bind_keeps_the_text_of_the_statement() {
    let statement = Statement { sql: "SELECT 1".to_string(), binds: vec![] };
    let bound = bind(&note_table(), &statement).unwrap();
    assert_eq!(bound.sql, "SELECT 1");
    assert!(bound.values.is_empty());
}
