//! The course of one read or one update: from the validated request over
//! the connection and the engine to the result.
//!
//! The work on the pool and the engine is not done here. An [`Operation`]
//! says which [`Action`] is due; whoever drives it performs the action and
//! reports what came of it as an [`Event`]. The operation decides the
//! rest: a request is validated and compiled before a connection is asked
//! for, one statement is executed, nothing is tried twice, and a
//! connection that was acquired is released before the result is given
//! out.

use crate::document::{cells_of, names_of, projected, row_fields, Cell, Document, Fields};
use crate::error::QueryError;
use crate::filter::{filter_slots, TableFilter};
use crate::literal::ValueView;
use crate::query::{
    get_fault, materialize_rows, prepare_get, prepare_update, rows_decode, select_text,
    update_fault,
};
use crate::schema::{Columns, Schema};
use crate::statement::{bound_values, values_of, BoundStatement};
use crate::updater::{update_text, Updater};
use vstd::prelude::*;

verus! {

/// How far an operation has come.
#[derive(Clone, Copy, Debug, PartialEq, Eq, Structural)]
pub enum Stage {
    /// The statement is ready; a connection is waited for.
    Acquiring,
    /// A connection is held; the engine's answer is waited for.
    Executing,
    /// The outcome is known; the connection is still to be released.
    Releasing,
    /// No connection is held; the result can be given out.
    Done,
}

/// What is due next.
#[derive(Clone, Copy, Debug, PartialEq, Eq, Structural)]
pub enum Action {
    /// Ask the pool for a connection.
    Acquire,
    /// Hand the statement to the engine, on the acquired connection.
    Execute,
    /// Give the connection back to the pool.
    Release,
    /// Take the result.
    Finish,
}

/// What came of an action.
#[derive(Debug, PartialEq, Eq)]
pub enum Event {
    /// The pool supplied a connection.
    Connected,
    /// The pool supplied none.
    Refused,
    /// The engine ran the statement and returned these rows.
    Executed(Vec<Vec<Cell>>),
    /// The engine rejected or failed the statement.
    Failed,
    /// The connection is back in the pool.
    Released,
}

/// The action that is due at a stage.
pub open spec fn action_at(stage: Stage) -> Action {
    match stage {
        Stage::Acquiring => Action::Acquire,
        Stage::Executing => Action::Execute,
        Stage::Releasing => Action::Release,
        Stage::Done => Action::Finish,
    }
}

/// Whether a connection is held at a stage.
pub open spec fn holds_connection(stage: Stage) -> bool {
    stage is Executing || stage is Releasing
}

/// The place of a stage in the course of an operation.
pub open spec fn progress(stage: Stage) -> int {
    match stage {
        Stage::Acquiring => 0,
        Stage::Executing => 1,
        Stage::Releasing => 2,
        Stage::Done => 3,
    }
}

/// Whether an event is one that the stage waits for.
pub open spec fn awaited(stage: Stage, event: Event) -> bool {
    match stage {
        Stage::Acquiring => event is Connected || event is Refused,
        Stage::Executing => event is Executed || event is Failed,
        Stage::Releasing => event is Released,
        Stage::Done => false,
    }
}

/// The stage after an event. An event that the stage does not wait for
/// changes nothing.
pub open spec fn stage_after(stage: Stage, event: Event) -> Stage {
    match stage {
        Stage::Acquiring => if event is Connected {
            Stage::Executing
        } else if event is Refused {
            Stage::Done
        } else {
            stage
        },
        Stage::Executing => if event is Executed || event is Failed {
            Stage::Releasing
        } else {
            stage
        },
        Stage::Releasing => if event is Released {
            Stage::Done
        } else {
            stage
        },
        Stage::Done => stage,
    }
}

/// The documents of a list, each by what it holds.
pub open spec fn documents_of(list: Seq<Document>) -> Seq<Fields> {
    Seq::new(list.len(), |i: int| list[i]@)
}

/// What a result holds.
pub open spec fn outcome_of(
    result: Result<Vec<Document>, QueryError>,
) -> Result<Seq<Fields>, QueryError> {
    match result {
        Ok(documents) => Ok(documents_of(documents@)),
        Err(e) => Err(e),
    }
}

/// What the rows of a read come to: a document for each row, with the
/// requested columns, or the failure to read a row.
pub open spec fn read_outcome(
    cols: Columns,
    names: Seq<Seq<char>>,
    rows: Seq<Vec<Cell>>,
) -> Result<Seq<Fields>, QueryError> {
    if rows_decode(cols, rows) {
        Ok(Seq::new(rows.len(), |i: int| projected(row_fields(cols, cells_of(rows[i]@)), names)))
    } else {
        Err(QueryError::RowDecodeFailure)
    }
}

/// The outcome after an event, at a stage where `before` is the outcome so
/// far. `reads` holds the requested columns of a read; an update has none
/// and yields no documents.
pub open spec fn outcome_after(
    stage: Stage,
    event: Event,
    cols: Columns,
    reads: Option<Seq<Seq<char>>>,
    before: Result<Seq<Fields>, QueryError>,
) -> Result<Seq<Fields>, QueryError> {
    match stage {
        Stage::Acquiring => if event is Refused {
            Err(QueryError::ConnectionAcquisitionFailure)
        } else {
            before
        },
        Stage::Executing => match event {
            Event::Executed(rows) => match reads {
                Some(names) => read_outcome(cols, names, rows@),
                None => Ok(Seq::empty()),
            },
            Event::Failed => Err(QueryError::StatementExecutionFailure),
            _ => before,
        },
        _ => before,
    }
}

/// One read or one update on its way.
#[derive(Debug)]
pub struct Operation {
    stage: Stage,
    statement: BoundStatement,
    reads: Option<Vec<String>>,
    outcome: Result<Vec<Document>, QueryError>,
}

/// A copy of a list of names.
fn copy_names(names: &Vec<String>) -> (copy: Vec<String>)
    ensures
        names_of(copy@) == names_of(names@),
{
    let mut copy: Vec<String> = Vec::new();
    let n = names.len();
    let mut i: usize = 0;
    while i < n
        invariant
            i <= n,
            n == names@.len(),
            copy@.len() == i,
            forall|k: int| 0 <= k < i ==> (#[trigger] copy@[k])@ == names@[k]@,
        decreases n - i,
    {
        copy.push(names[i].clone());
        i += 1;
    }
    copy
}

impl Operation {
    /// How far the operation has come.
    pub closed spec fn stage(&self) -> Stage {
        self.stage
    }

    /// The text of the statement.
    pub closed spec fn sql(&self) -> Seq<char> {
        self.statement.sql@
    }

    /// The values of the statement, in the order of their placeholders.
    pub closed spec fn values(&self) -> Seq<ValueView> {
        values_of(self.statement.values@)
    }

    /// The requested columns of a read; `None` for an update.
    pub closed spec fn reads(&self) -> Option<Seq<Seq<char>>> {
        match self.reads {
            Some(names) => Some(names_of(names@)),
            None => None,
        }
    }

    /// The outcome as far as it is known.
    pub closed spec fn outcome(&self) -> Result<Seq<Fields>, QueryError> {
        outcome_of(self.outcome)
    }

    /// Begins a read of the rows that `filter` selects.
    ///
    /// The request is validated, compiled and bound here. A request with a
    /// fault begins nothing: no connection is ever asked for on its behalf.
    pub fn read(
        schema: &Schema,
        filter: &TableFilter,
        requested: &Vec<String>,
    ) -> (r: Result<Operation, QueryError>)
        ensures
            match r {
                Ok(operation) => {
                    &&& get_fault(schema.columns(), names_of(requested@), filter@) is None
                    &&& operation.stage() == Stage::Acquiring
                    &&& operation.sql() == select_text(schema.table(), filter@)
                    &&& operation.values() == bound_values(schema.columns(), filter_slots(filter@))
                    &&& operation.reads() == Some(names_of(requested@))
                    &&& operation.outcome() == Ok::<Seq<Fields>, QueryError>(
                        Seq::empty(),
                    )
                },
                Err(e) => get_fault(schema.columns(), names_of(requested@), filter@) == Some(e)
                    && e.validation(),
            },
    {
        match prepare_get(schema, filter, requested) {
            Ok(statement) => {
                let operation = Operation {
                    stage: Stage::Acquiring,
                    statement,
                    reads: Some(copy_names(requested)),
                    outcome: Ok(Vec::new()),
                };
                assert(operation.outcome() =~= Ok(Seq::empty())) by {
                    assert(documents_of(operation.outcome->Ok_0@) =~= Seq::empty());
                }
                Ok(operation)
            },
            Err(e) => Err(e),
        }
    }

    /// Begins an update.
    ///
    /// The request is validated, compiled and bound here. A request with a
    /// fault begins nothing: no connection is ever asked for on its behalf.
    pub fn update(schema: &Schema, updater: &Updater) -> (r: Result<Operation, QueryError>)
        ensures
            match r {
                Ok(operation) => {
                    &&& update_fault(schema.columns(), updater.assignments(), updater.filter())
                        is None
                    &&& operation.stage() == Stage::Acquiring
                    &&& operation.sql() == update_text(
                        schema.table(),
                        updater.assignments(),
                        updater.filter(),
                    )
                    &&& operation.values() == bound_values(
                        schema.columns(),
                        updater.assignments() + filter_slots(updater.filter()),
                    )
                    &&& operation.reads() is None
                    &&& operation.outcome() == Ok::<Seq<Fields>, QueryError>(
                        Seq::empty(),
                    )
                },
                Err(e) => update_fault(schema.columns(), updater.assignments(), updater.filter())
                    == Some(e) && e.validation(),
            },
    {
        match prepare_update(schema, updater) {
            Ok(statement) => {
                let operation = Operation {
                    stage: Stage::Acquiring,
                    statement,
                    reads: None,
                    outcome: Ok(Vec::new()),
                };
                assert(operation.outcome() =~= Ok(Seq::empty())) by {
                    assert(documents_of(operation.outcome->Ok_0@) =~= Seq::empty());
                }
                Ok(operation)
            },
            Err(e) => Err(e),
        }
    }

    /// The action that is due.
    pub fn action(&self) -> (a: Action)
        ensures
            a == action_at(self.stage()),
    {
        match self.stage {
            Stage::Acquiring => Action::Acquire,
            Stage::Executing => Action::Execute,
            Stage::Releasing => Action::Release,
            Stage::Done => Action::Finish,
        }
    }

    /// The statement that is handed to the engine when [`Action::Execute`]
    /// is due.
    pub fn statement(&self) -> (s: &BoundStatement)
        ensures
            s.sql@ == self.sql(),
            values_of(s.values@) == self.values(),
    {
        &self.statement
    }

    /// Takes note of what came of the action that was due.
    ///
    /// A connection that the pool supplied is used for one execution. A
    /// refusal of the pool ends the operation at once. Whatever the engine
    /// answers, the connection is released next; the rows of a read are
    /// turned into documents against `schema` before that. An event that
    /// is not waited for changes nothing.
    pub fn step(self, schema: &Schema, event: Event) -> (next: Operation)
        ensures
            next.stage() == stage_after(self.stage(), event),
            next.sql() == self.sql(),
            next.values() == self.values(),
            next.reads() == self.reads(),
            next.outcome() == outcome_after(
                self.stage(),
                event,
                schema.columns(),
                self.reads(),
                self.outcome(),
            ),
    {
        let Operation { stage, statement, reads, outcome } = self;
        match stage {
            Stage::Acquiring => match event {
                Event::Connected => Operation {
                    stage: Stage::Executing,
                    statement,
                    reads,
                    outcome,
                },
                Event::Refused => Operation {
                    stage: Stage::Done,
                    statement,
                    reads,
                    outcome: Err(QueryError::ConnectionAcquisitionFailure),
                },
                _ => Operation { stage, statement, reads, outcome },
            },
            Stage::Executing => match event {
                Event::Executed(rows) => {
                    let outcome = match &reads {
                        Some(names) => {
                            let read = materialize_rows(schema, names, &rows);
                            proof {
                                if read is Ok {
                                    assert(documents_of(read->Ok_0@) =~= read_outcome(
                                        schema.columns(),
                                        names_of(names@),
                                        rows@,
                                    )->Ok_0);
                                }
                            }
                            read
                        },
                        None => {
                            let none: Vec<Document> = Vec::new();
                            assert(documents_of(none@) =~= Seq::empty());
                            Ok(none)
                        },
                    };
                    Operation { stage: Stage::Releasing, statement, reads, outcome }
                },
                Event::Failed => Operation {
                    stage: Stage::Releasing,
                    statement,
                    reads,
                    outcome: Err(QueryError::StatementExecutionFailure),
                },
                _ => Operation { stage, statement, reads, outcome },
            },
            Stage::Releasing => match event {
                Event::Released => Operation { stage: Stage::Done, statement, reads, outcome },
                _ => Operation { stage, statement, reads, outcome },
            },
            Stage::Done => Operation { stage, statement, reads, outcome },
        }
    }

    /// The result, once the operation is done; until then, the operation
    /// itself, with its action still due.
    pub fn finish(self) -> (r: Result<Result<Vec<Document>, QueryError>, Operation>)
        ensures
            match r {
                Ok(result) => self.stage() == Stage::Done && outcome_of(result) == self.outcome(),
                Err(operation) => self.stage() != Stage::Done && operation == self,
            },
    {
        match self.stage {
            Stage::Done => Ok(self.outcome),
            _ => Err(self),
        }
    }
}

/// An operation never goes back: after an event that it waited for it is
/// further on, and after any other event it is where it was. So a
/// connection is asked for once and one statement is executed.
pub proof fn law_no_way_back(stage: Stage, event: Event)
    ensures
        awaited(stage, event) ==> progress(stage_after(stage, event)) > progress(stage),
        !awaited(stage, event) ==> stage_after(stage, event) == stage,
{
}

/// A connection is held only after the pool supplied one, and an operation
/// that holds a connection is done only after the connection was released.
pub proof fn law_connection_released(stage: Stage, event: Event)
    ensures
        !holds_connection(stage) && holds_connection(stage_after(stage, event)) ==> stage
            is Acquiring && event is Connected,
        holds_connection(stage) && !holds_connection(stage_after(stage, event)) ==> stage
            is Releasing && event is Released && stage_after(stage, event) is Done,
        stage_after(stage, event) is Done ==> stage is Done || (stage is Releasing && event
            is Released) || (stage is Acquiring && event is Refused),
{
}

/// The failures of the pool and of the engine are handed on as they are:
/// each ends the operation with its own error, whatever went before.
pub proof fn law_failures_reported(
    event: Event,
    cols: Columns,
    reads: Option<Seq<Seq<char>>>,
    before: Result<Seq<Fields>, QueryError>,
)
    ensures
        outcome_after(Stage::Acquiring, Event::Refused, cols, reads, before) == Err::<
            Seq<Fields>,
            QueryError,
        >(QueryError::ConnectionAcquisitionFailure),
        outcome_after(Stage::Executing, Event::Failed, cols, reads, before) == Err::<
            Seq<Fields>,
            QueryError,
        >(QueryError::StatementExecutionFailure),
        outcome_after(Stage::Releasing, event, cols, reads, before) == before,
        outcome_after(Stage::Done, event, cols, reads, before) == before,
{
}

} // verus!
