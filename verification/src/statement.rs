//! Statements with positional placeholders, and the binding of a typed
//! value to each placeholder.

use crate::error::{first_fault, lemma_first_fault_at, lemma_first_fault_none, QueryError};
use crate::literal::{coerce, coerced, Literal, LiteralView, Value, ValueView};
use crate::schema::{column_kind, Columns, Schema};
use vstd::prelude::*;

verus! {

/// The literal for one `?` of a statement, with the column that decides its
/// type.
#[derive(Debug, PartialEq, Eq)]
pub struct BindSlot {
    pub column: String,
    pub literal: Literal,
}

impl View for BindSlot {
    type V = (Seq<char>, LiteralView);

    open spec fn view(&self) -> (Seq<char>, LiteralView) {
        (self.column@, self.literal@)
    }
}

/// Literals in their order, each with the column that it belongs to.
pub type Slots = Seq<(Seq<char>, LiteralView)>;

/// The slots of a list, each as its column and literal.
pub open spec fn slots_of(list: Seq<BindSlot>) -> Slots {
    Seq::new(list.len(), |i: int| list[i]@)
}

/// The values of a list, each by what it holds.
pub open spec fn values_of(list: Seq<Value>) -> Seq<ValueView> {
    Seq::new(list.len(), |i: int| list[i]@)
}

/// A statement, or a clause of one, with a `?` for each literal. The
/// literals stand in `binds`, in the order of their placeholders.
#[derive(Debug, PartialEq, Eq)]
pub struct Statement {
    pub sql: String,
    pub binds: Vec<BindSlot>,
}

/// A statement with a typed value for each `?`, ready for the engine.
#[derive(Debug, PartialEq, Eq)]
pub struct BoundStatement {
    pub sql: String,
    pub values: Vec<Value>,
}

/// The typed value for one slot: the literal, read as the type that the
/// schema declares for the slot's column.
pub open spec fn slot_value(cols: Columns, slot: (Seq<char>, LiteralView)) -> Option<ValueView> {
    match column_kind(cols, slot.0) {
        Some(kind) => coerced(kind, slot.1),
        None => None,
    }
}

/// What is wrong with one slot, if anything: its column is not in the
/// schema, or its literal cannot be read as the column's type.
pub open spec fn slot_fault(cols: Columns, slot: (Seq<char>, LiteralView)) -> Option<QueryError> {
    match column_kind(cols, slot.0) {
        Some(kind) => if coerced(kind, slot.1) is None {
            Some(QueryError::TypeMismatch)
        } else {
            None
        },
        None => Some(QueryError::UnknownColumn),
    }
}

/// The first fault among the slots, from left to right.
pub open spec fn bind_fault(cols: Columns, slots: Slots) -> Option<QueryError> {
    first_fault(Seq::new(slots.len(), |i: int| slot_fault(cols, slots[i])))
}

/// The typed values for the slots, in the order of the slots.
pub open spec fn bound_values(cols: Columns, slots: Slots) -> Seq<ValueView> {
    Seq::new(slots.len(), |i: int| slot_value(cols, slots[i])->0)
}

/// Gives each placeholder of a statement its typed value.
///
/// For every slot the column's declared type is looked up in the schema and
/// the literal is read as that type. The first slot that cannot be bound
/// decides the error, and nothing is bound then.
pub fn bind(schema: &Schema, statement: &Statement) -> (r: Result<BoundStatement, QueryError>)
    ensures
        match r {
            Ok(bound) => {
                &&& bind_fault(schema.columns(), slots_of(statement.binds@)) is None
                &&& bound.sql@ == statement.sql@
                &&& values_of(bound.values@) == bound_values(
                    schema.columns(),
                    slots_of(statement.binds@),
                )
            },
            Err(e) => bind_fault(schema.columns(), slots_of(statement.binds@)) == Some(e),
        },
{
    let ghost cols = schema.columns();
    let ghost slots = slots_of(statement.binds@);
    let ghost checks = Seq::new(slots.len(), |i: int| slot_fault(cols, slots[i]));
    let mut values: Vec<Value> = Vec::new();
    let n = statement.binds.len();
    let mut i: usize = 0;
    while i < n
        invariant
            i <= n,
            n == statement.binds@.len(),
            cols == schema.columns(),
            slots == slots_of(statement.binds@),
            checks == Seq::new(slots.len(), |i: int| slot_fault(cols, slots[i])),
            forall|k: int| 0 <= k < i ==> #[trigger] checks[k] is None,
            values@.len() == i,
            forall|k: int| 0 <= k < i ==> (#[trigger] values@[k])@ == slot_value(cols, slots[k])->0,
        decreases n - i,
    {
        let slot = &statement.binds[i];
        let kind = match schema.kind_of(slot.column.as_str()) {
            Some(kind) => kind,
            None => {
                proof {
                    lemma_first_fault_at(checks, i as int);
                }
                return Err(QueryError::UnknownColumn);
            },
        };
        match coerce(kind, &slot.literal) {
            Some(value) => {
                values.push(value);
            },
            None => {
                proof {
                    lemma_first_fault_at(checks, i as int);
                }
                return Err(QueryError::TypeMismatch);
            },
        }
        i += 1;
    }
    proof {
        lemma_first_fault_none(checks);
    }
    Ok(BoundStatement { sql: statement.sql.clone(), values })
}

} // verus!
