//! Reads and updates, from the request to the statement that is handed to
//! the engine, and from the rows that come back to the documents that are
//! handed to the caller.
//!
//! Everything that can be wrong with a request is found here, before a
//! connection is asked for: what these functions return is either ready for
//! the engine or an error that no engine has seen.

use crate::document::{
    cells_of, materialize, names_of, projected, row_decodes, row_fields, Cell, Document,
};
use crate::error::{first_fault, lemma_first_fault_among, lemma_first_fault_none, QueryError};
use crate::filter::{
    element_faults, filter_clause, filter_fault, filter_slots, filter_valid,
    lemma_valid_iff_no_fault, Elements, TableFilter,
};
use crate::schema::{has_column, lemma_kind_iff_column, Columns, Schema};
use crate::statement::{
    bind, bind_fault, bound_values, slot_fault, slots_of, values_of, BoundStatement, Slots,
    Statement,
};
use crate::updater::{lemma_updater_valid_iff_no_fault, update_text, updater_fault, Updater};
use vstd::prelude::*;
use vstd::string::*;

verus! {

/// The statement of a read: `SELECT * FROM table`, and the filter's clause
/// behind it where the filter has one.
pub open spec fn select_text(table: Seq<char>, filter: Elements) -> Seq<char> {
    "SELECT * FROM "@ + table + if filter.len() == 0 {
        Seq::<char>::empty()
    } else {
        " "@ + filter_clause(filter)
    }
}

/// Every requested column is in the schema.
pub open spec fn requested_known(cols: Columns, names: Seq<Seq<char>>) -> bool {
    forall|i: int| 0 <= i < names.len() ==> has_column(cols, #[trigger] names[i])
}

/// What is wrong with the request of a read, if anything. The requested
/// columns are looked at first, then the filter, then its literals.
pub open spec fn get_fault(
    cols: Columns,
    names: Seq<Seq<char>>,
    filter: Elements,
) -> Option<QueryError> {
    if !requested_known(cols, names) {
        Some(QueryError::UnknownColumn)
    } else if filter_fault(cols, filter) is Some {
        filter_fault(cols, filter)
    } else {
        bind_fault(cols, filter_slots(filter))
    }
}

/// What is wrong with the request of an update, if anything. The update is
/// validated first, then its literals are looked at: those of the
/// assignments before those of the filter.
pub open spec fn update_fault(cols: Columns, set: Slots, filter: Elements) -> Option<QueryError> {
    if updater_fault(cols, set, filter) is Some {
        updater_fault(cols, set, filter)
    } else {
        bind_fault(cols, set + filter_slots(filter))
    }
}

/// Every row of a result can be turned into a document.
pub open spec fn rows_decode(cols: Columns, rows: Seq<Vec<Cell>>) -> bool {
    forall|i: int| 0 <= i < rows.len() ==> row_decodes(cols, cells_of((#[trigger] rows[i])@))
}

/// The fault of a filter is one that is found in the request alone.
pub proof fn lemma_filter_fault_validation(cols: Columns, filter: Elements)
    ensures
        filter_fault(cols, filter) matches Some(e) ==> e.validation(),
{
    if filter_fault(cols, filter) is Some {
        lemma_first_fault_among(element_faults(cols, filter));
    }
}

/// The fault of a binding is one that is found in the request alone. Where
/// every slot's column is in the schema, it is a literal of the wrong type.
pub proof fn lemma_bind_fault_validation(cols: Columns, slots: Slots)
    ensures
        bind_fault(cols, slots) matches Some(e) ==> e.validation(),
        (forall|i: int| 0 <= i < slots.len() ==> has_column(cols, (#[trigger] slots[i]).0))
            ==> bind_fault(cols, slots) is None || bind_fault(cols, slots) == Some(
            QueryError::TypeMismatch,
        ),
{
    if bind_fault(cols, slots) is Some {
        let checks = Seq::new(slots.len(), |i: int| slot_fault(cols, slots[i]));
        lemma_first_fault_among(checks);
        let i = choose|i: int| 0 <= i < checks.len() && #[trigger] checks[i] == first_fault(checks);
        lemma_kind_iff_column(cols, slots[i].0);
    }
}

/// Compiles a read of the rows that `filter` selects.
///
/// The requested columns must all be in the schema, and the filter must be
/// valid. The statement reads `SELECT * FROM table`, followed by the
/// filter's clause if it has one, and has the filter's bind slots.
pub fn select(
    schema: &Schema,
    filter: &TableFilter,
    requested: &Vec<String>,
) -> (r: Result<Statement, QueryError>)
    ensures
        requested_known(schema.columns(), names_of(requested@)) && filter_valid(
            schema.columns(),
            filter@,
        ) <==> r is Ok,
        match r {
            Ok(statement) => {
                &&& statement.sql@ == select_text(schema.table(), filter@)
                &&& slots_of(statement.binds@) == filter_slots(filter@)
            },
            Err(e) => if !requested_known(schema.columns(), names_of(requested@)) {
                e == QueryError::UnknownColumn
            } else {
                filter_fault(schema.columns(), filter@) == Some(e)
            },
        },
{
    let ghost cols = schema.columns();
    let ghost names = names_of(requested@);
    let n = requested.len();
    let mut i: usize = 0;
    while i < n
        invariant
            i <= n,
            n == requested@.len(),
            cols == schema.columns(),
            names == names_of(requested@),
            forall|k: int| 0 <= k < i ==> has_column(cols, #[trigger] names[k]),
        decreases n - i,
    {
        assert(names[i as int] == requested@[i as int]@);
        if !schema.contains(requested[i].as_str()) {
            return Err(QueryError::UnknownColumn);
        }
        i += 1;
    }
    let clause = match filter.compile(schema) {
        Ok(clause) => clause,
        Err(e) => {
            return Err(e);
        },
    };
    let mut sql = String::from_str("SELECT * FROM ");
    sql.append(schema.table_name());
    if filter.expr().len() > 0 {
        sql.append(" ");
        sql.append(clause.sql.as_str());
    }
    Ok(Statement { sql, binds: clause.binds })
}

/// Prepares a read: validates the request, compiles it and binds its
/// literals.
///
/// What comes back is ready for the engine. Each row that the engine
/// returns for it is then turned into a document by [`materialize_rows`].
pub fn prepare_get(
    schema: &Schema,
    filter: &TableFilter,
    requested: &Vec<String>,
) -> (r: Result<BoundStatement, QueryError>)
    ensures
        match r {
            Ok(bound) => {
                &&& get_fault(schema.columns(), names_of(requested@), filter@) is None
                &&& bound.sql@ == select_text(schema.table(), filter@)
                &&& values_of(bound.values@) == bound_values(
                    schema.columns(),
                    filter_slots(filter@),
                )
            },
            Err(e) => get_fault(schema.columns(), names_of(requested@), filter@) == Some(e)
                && e.validation(),
        },
{
    proof {
        lemma_valid_iff_no_fault(schema.columns(), filter@);
        lemma_filter_fault_validation(schema.columns(), filter@);
        lemma_bind_fault_validation(schema.columns(), filter_slots(filter@));
    }
    let statement = match select(schema, filter, requested) {
        Ok(statement) => statement,
        Err(e) => {
            return Err(e);
        },
    };
    bind(schema, &statement)
}

/// Prepares an update: validates it, compiles it and binds its literals,
/// those of the assignments before those of the filter.
///
/// What comes back is ready for the engine.
pub fn prepare_update(schema: &Schema, updater: &Updater) -> (r: Result<BoundStatement, QueryError>)
    ensures
        match r {
            Ok(bound) => {
                &&& update_fault(schema.columns(), updater.assignments(), updater.filter()) is None
                &&& bound.sql@ == update_text(
                    schema.table(),
                    updater.assignments(),
                    updater.filter(),
                )
                &&& values_of(bound.values@) == bound_values(
                    schema.columns(),
                    updater.assignments() + filter_slots(updater.filter()),
                )
            },
            Err(e) => update_fault(schema.columns(), updater.assignments(), updater.filter())
                == Some(e) && e.validation(),
        },
{
    proof {
        lemma_updater_valid_iff_no_fault(
            schema.columns(),
            updater.assignments(),
            updater.filter(),
        );
        lemma_filter_fault_validation(schema.columns(), updater.filter());
        lemma_bind_fault_validation(
            schema.columns(),
            updater.assignments() + filter_slots(updater.filter()),
        );
    }
    let statement = match updater.compile(schema) {
        Ok(statement) => statement,
        Err(e) => {
            return Err(e);
        },
    };
    bind(schema, &statement)
}

/// Turns the rows of a read into documents, each with the requested
/// columns only.
///
/// Every row is first read in full against the schema; a row that does not
/// agree with the schema fails the whole read.
pub fn materialize_rows(
    schema: &Schema,
    requested: &Vec<String>,
    rows: &Vec<Vec<Cell>>,
) -> (r: Result<Vec<Document>, QueryError>)
    ensures
        match r {
            Ok(documents) => {
                &&& rows_decode(schema.columns(), rows@)
                &&& documents@.len() == rows@.len()
                &&& forall|i: int|
                    0 <= i < rows@.len() ==> (#[trigger] documents@[i])@ == projected(
                        row_fields(schema.columns(), cells_of(rows@[i]@)),
                        names_of(requested@),
                    )
            },
            Err(e) => e == QueryError::RowDecodeFailure && !rows_decode(schema.columns(), rows@),
        },
{
    let ghost cols = schema.columns();
    let mut documents: Vec<Document> = Vec::new();
    let n = rows.len();
    let mut i: usize = 0;
    while i < n
        invariant
            i <= n,
            n == rows@.len(),
            cols == schema.columns(),
            documents@.len() == i,
            forall|k: int| 0 <= k < i ==> row_decodes(cols, cells_of((#[trigger] rows@[k])@)),
            forall|k: int|
                0 <= k < i ==> (#[trigger] documents@[k])@ == projected(
                    row_fields(cols, cells_of(rows@[k]@)),
                    names_of(requested@),
                ),
        decreases n - i,
    {
        match materialize(schema, &rows[i]) {
            Ok(document) => {
                documents.push(document.project(requested));
            },
            Err(e) => {
                return Err(e);
            },
        }
        i += 1;
    }
    Ok(documents)
}

/// The empty filter is valid against every schema and restricts nothing:
/// it has no clause and no bind slot, and the read is of the whole table.
pub proof fn law_empty_filter(cols: Columns, table: Seq<char>)
    ensures
        filter_valid(cols, Seq::empty()),
        filter_clause(Seq::empty()) == Seq::<char>::empty(),
        filter_slots(Seq::empty()) == Slots::empty(),
        select_text(table, Seq::empty()) == "SELECT * FROM "@ + table,
        get_fault(cols, Seq::empty(), Seq::empty()) is None,
{
    let none = Elements::empty();
    lemma_valid_iff_no_fault(cols, none);
    lemma_first_fault_none(Seq::new(0, |i: int| slot_fault(cols, filter_slots(none)[i])));
}

} // verus!
