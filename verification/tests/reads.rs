use backend::document::{materialize, Cell, Document};
use backend::error::QueryError;
use backend::filter::{FieldCondition, TableFilter};
use backend::literal::{coerce, Literal, Real, Value};
use backend::query::{materialize_rows, prepare_get, select};
use backend::schema::{Schema, SqliteType};

fn two_columns() -> Schema {
    Schema::new("notes").column("title", SqliteType::Text).column("pub_date", SqliteType::Integer)
}

fn title_equals(s: &str) -> TableFilter {
    TableFilter(vec![(
        FieldCondition("title".to_string(), "=".to_string(), Literal::Text(s.to_string())),
        String::new(),
    )])
}

fn cell(column: &str, value: Literal) -> Cell {
    Cell { column: column.to_string(), value }
}

fn both() -> Vec<String> {
    vec!["title".to_string(), "pub_date".to_string()]
}

#[test]
fn read_with_one_condition() {
    let statement = select(&two_columns(), &title_equals("Test"), &both()).unwrap();
    assert_eq!(statement.sql, "SELECT * FROM notes WHERE title = ?");
    let bound = prepare_get(&two_columns(), &title_equals("Test"), &both()).unwrap();
    assert_eq!(bound.sql, "SELECT * FROM notes WHERE title = ?");
    assert_eq!(bound.values, vec![Value::Text("Test".to_string())]);

    let rows = vec![vec![
        cell("title", Literal::Text("Test".to_string())),
        cell("pub_date", Literal::Integer(0)),
    ]];
    let documents = materialize_rows(&two_columns(), &both(), &rows).unwrap();
    assert_eq!(
        documents,
        vec![Document {
            fields: vec![
                ("title".to_string(), Value::Text("Test".to_string())),
                ("pub_date".to_string(), Value::Integer(0)),
            ],
        }]
    );
}

#[test]
fn read_of_the_whole_table() {
    let bound = prepare_get(&two_columns(), &TableFilter(vec![]), &both()).unwrap();
    assert_eq!(bound.sql, "SELECT * FROM notes");
    assert!(bound.values.is_empty());
}

#[test]
fn literal_of_wrong_type_is_a_type_mismatch() {
    let f = TableFilter(vec![(
        FieldCondition(
            "pub_date".to_string(),
            "=".to_string(),
            Literal::Text("notanumber".to_string()),
        ),
        String::new(),
    )]);
    assert!(f.valid(&two_columns()));
    assert!(select(&two_columns(), &f, &both()).is_ok());
    assert_eq!(prepare_get(&two_columns(), &f, &both()), Err(QueryError::TypeMismatch));
}

#[test]
fn requested_columns_must_be_in_the_schema() {
    let requested = vec!["title".to_string(), "body".to_string()];
    assert_eq!(
        prepare_get(&two_columns(), &title_equals("Test"), &requested),
        Err(QueryError::UnknownColumn)
    );
    assert_eq!(
        select(&two_columns(), &TableFilter(vec![]), &requested),
        Err(QueryError::UnknownColumn)
    );
}

#[test]
fn requested_columns_are_checked_before_the_filter() {
    let bad = TableFilter(vec![(
        FieldCondition("title".to_string(), "LIKE".to_string(), Literal::Null),
        String::new(),
    )]);
    assert_eq!(
        prepare_get(&two_columns(), &bad, &vec!["body".to_string()]),
        Err(QueryError::UnknownColumn)
    );
    assert_eq!(prepare_get(&two_columns(), &bad, &both()), Err(QueryError::OperatorNotAllowed));
}

#[test]
fn errors_of_a_request_are_validation_errors() {
    let e = prepare_get(&two_columns(), &title_equals("Test"), &vec!["x".to_string()]).unwrap_err();
    assert!(e.is_validation());
}

#[test]
fn documents_hold_the_requested_columns_only() {
    let rows = vec![
        vec![cell("pub_date", Literal::Integer(5)), cell("title", Literal::Text("a".to_string()))],
        vec![cell("title", Literal::Text("b".to_string())), cell("pub_date", Literal::Integer(6))],
    ];
    let documents = materialize_rows(&two_columns(), &vec!["pub_date".to_string()], &rows).unwrap();
    assert_eq!(
        documents,
        vec![
            Document { fields: vec![("pub_date".to_string(), Value::Integer(5))] },
            Document { fields: vec![("pub_date".to_string(), Value::Integer(6))] },
        ]
    );
    let none = materialize_rows(&two_columns(), &vec![], &rows).unwrap();
    assert_eq!(none, vec![Document { fields: vec![] }, Document { fields: vec![] }]);
}

#[test]
fn no_rows_give_no_documents() {
    assert_eq!(materialize_rows(&two_columns(), &both(), &vec![]), Ok(vec![]));
}

#[test]
fn document_follows_the_order_of_the_schema() {
    let row =
        vec![cell("pub_date", Literal::Integer(5)), cell("title", Literal::Text("a".to_string()))];
    let d = materialize(&two_columns(), &row).unwrap();
    assert_eq!(
        d.fields,
        vec![
            ("title".to_string(), Value::Text("a".to_string())),
            ("pub_date".to_string(), Value::Integer(5)),
        ]
    );
    assert_eq!(d.get("pub_date"), Some(&Value::Integer(5)));
    assert_eq!(d.get("title"), Some(&Value::Text("a".to_string())));
    assert_eq!(d.get("body"), None);
}

#[test]
fn column_outside_the_schema_is_a_decode_failure() {
    let row = vec![
        cell("title", Literal::Text("a".to_string())),
        cell("pub_date", Literal::Integer(5)),
        cell("body", Literal::Text("x".to_string())),
    ];
    assert_eq!(materialize(&two_columns(), &row), Err(QueryError::RowDecodeFailure));
    assert_eq!(
        materialize_rows(&two_columns(), &both(), &vec![row]),
        Err(QueryError::RowDecodeFailure)
    );
}

#[test]
fn missing_column_is_a_decode_failure() {
    let row = vec![cell("title", Literal::Text("a".to_string()))];
    assert_eq!(materialize(&two_columns(), &row), Err(QueryError::RowDecodeFailure));
}

#[test]
fn cell_of_wrong_type_is_a_decode_failure() {
    let row = vec![
        cell("title", Literal::Text("a".to_string())),
        cell("pub_date", Literal::Text("5".to_string())),
    ];
    assert_eq!(materialize(&two_columns(), &row), Err(QueryError::RowDecodeFailure));
    let null = vec![cell("title", Literal::Null), cell("pub_date", Literal::Integer(5))];
    assert_eq!(materialize(&two_columns(), &null), Err(QueryError::RowDecodeFailure));
}

#[test]
fn one_bad_row_fails_the_read() {
    let rows = vec![
        vec![cell("title", Literal::Text("a".to_string())), cell("pub_date", Literal::Integer(5))],
        vec![cell("title", Literal::Text("b".to_string()))],
    ];
    assert_eq!(materialize_rows(&two_columns(), &both(), &rows), Err(QueryError::RowDecodeFailure));
}

#[test]
fn projection_keeps_order_and_ignores_repeats() {
    let d = Document {
        fields: vec![
            ("a".to_string(), Value::Integer(1)),
            ("b".to_string(), Value::Integer(2)),
            ("c".to_string(), Value::Integer(3)),
        ],
    };
    let p = d.project(&vec!["c".to_string(), "a".to_string(), "c".to_string(), "z".to_string()]);
    assert_eq!(
        p.fields,
        vec![("a".to_string(), Value::Integer(1)), ("c".to_string(), Value::Integer(3))]
    );
}

#[test]
fn coercion_by_column_type() {
    let bits = (1.5f64).to_bits();
    assert_eq!(coerce(SqliteType::Integer, &Literal::Integer(-7)), Some(Value::Integer(-7)));
    assert_eq!(coerce(SqliteType::PrimaryKey, &Literal::Integer(9)), Some(Value::Integer(9)));
    assert_eq!(
        coerce(SqliteType::Integer, &Literal::Integer(i64::MIN)),
        Some(Value::Integer(i64::MIN))
    );
    assert_eq!(coerce(SqliteType::Integer, &Literal::Real(bits)), None);
    assert_eq!(coerce(SqliteType::Integer, &Literal::Text("7".to_string())), None);
    assert_eq!(coerce(SqliteType::Integer, &Literal::Bool(true)), None);
    assert_eq!(coerce(SqliteType::PrimaryKey, &Literal::Null), None);

    assert_eq!(coerce(SqliteType::Real, &Literal::Real(bits)), Some(Value::Real(Real::Bits(bits))));
    assert_eq!(coerce(SqliteType::Real, &Literal::Integer(3)), Some(Value::Real(Real::Whole(3))));
    assert_eq!(coerce(SqliteType::Real, &Literal::Text("1.5".to_string())), None);
    assert_eq!(coerce(SqliteType::Real, &Literal::Bool(false)), None);
    assert_eq!(coerce(SqliteType::Real, &Literal::Null), None);

    assert_eq!(
        coerce(SqliteType::Text, &Literal::Text("x".to_string())),
        Some(Value::Text("x".to_string()))
    );
    assert_eq!(coerce(SqliteType::Text, &Literal::Integer(1)), None);
    assert_eq!(coerce(SqliteType::Text, &Literal::Real(bits)), None);
    assert_eq!(coerce(SqliteType::Text, &Literal::Bool(true)), None);
    assert_eq!(coerce(SqliteType::Text, &Literal::Null), None);
}

#[test]
fn clones_are_equal() {
    let l = Literal::Text("x".to_string());
    assert_eq!(l.clone(), l);
    let v = Value::Real(Real::Bits(1));
    assert_eq!(v.clone(), v);
}

#[test]
fn error_messages_and_classes() {
    let all = [
        (QueryError::UnknownColumn, "unknown column", true),
        (QueryError::OperatorNotAllowed, "operator not allowed", true),
        (QueryError::MalformedFilter, "malformed filter", true),
        (QueryError::EmptyUpdateSet, "empty update set", true),
        (QueryError::TypeMismatch, "type mismatch", true),
        (QueryError::ConnectionAcquisitionFailure, "connection acquisition failure", false),
        (QueryError::StatementExecutionFailure, "statement execution failure", false),
        (QueryError::RowDecodeFailure, "row decode failure", false),
    ];
    for (e, text, validation) in all {
        assert_eq!(e.message(), text);
        assert_eq!(e.is_validation(), validation);
    }
}
