//! Updates: new values for some columns of the rows that a filter selects.

use crate::error::QueryError;
use crate::filter::{
    filter_clause, filter_fault, filter_slots, filter_valid, lemma_valid_iff_no_fault, Elements,
    TableFilter,
};
use crate::literal::{Literal, LiteralView};
use crate::schema::{has_column, lemma_kind_iff_column, Columns, Schema};
use crate::statement::{slots_of, BindSlot, Slots, Statement};
use crate::text::{
    lemma_text_lt_irreflexive, lemma_text_lt_total, lemma_text_lt_transitive, precedes, same,
    text_lt,
};
use vstd::prelude::*;
use vstd::string::*;

verus! {

/// The assignments stand in the order of their columns' names, and no
/// column is assigned twice.
pub open spec fn sorted_by_column(set: Slots) -> bool {
    forall|i: int, j: int|
        0 <= i < j < set.len() ==> text_lt((#[trigger] set[i]).0, (#[trigger] set[j]).0)
}

/// The number of leading assignments whose column sorts before `column`: in
/// a sorted set, the place of `column`.
pub open spec fn rank(set: Slots, column: Seq<char>) -> int
    decreases set.len(),
{
    if set.len() == 0 || !text_lt(set[0].0, column) {
        0
    } else {
        1 + rank(set.drop_first(), column)
    }
}

/// The set after `column` is assigned `value`: a column that is already
/// assigned gets the new value, another one is put in at its place.
pub open spec fn assigned(set: Slots, column: Seq<char>, value: LiteralView) -> Slots {
    let place = rank(set, column);
    if place < set.len() && set[place].0 == column {
        set.update(place, (column, value))
    } else {
        set.insert(place, (column, value))
    }
}

/// The text of the first `n` assignments: `column = ?` for each, with a
/// comma after each but the last and a space after every one.
pub open spec fn assignments_text(set: Slots, n: int) -> Seq<char>
    decreases n,
{
    if n <= 0 {
        Seq::<char>::empty()
    } else {
        assignments_text(set, n - 1) + set[n - 1].0 + " = ?"@ + if n == set.len() {
            " "@
        } else {
            ", "@
        }
    }
}

/// The statement of an update: `UPDATE table SET c1 = ?, c2 = ? ` and the
/// filter's clause behind it.
pub open spec fn update_text(table: Seq<char>, set: Slots, filter: Elements) -> Seq<char> {
    "UPDATE "@ + table + " SET "@ + assignments_text(set, set.len() as int) + filter_clause(filter)
}

/// Every assigned column is in the schema.
pub open spec fn columns_known(cols: Columns, set: Slots) -> bool {
    forall|i: int| 0 <= i < set.len() ==> has_column(cols, (#[trigger] set[i]).0)
}

/// An update is valid if its filter is valid, it assigns at least one
/// column, and every assigned column is in the schema.
pub open spec fn updater_valid(cols: Columns, set: Slots, filter: Elements) -> bool {
    filter_valid(cols, filter) && set.len() > 0 && columns_known(cols, set)
}

/// What is wrong with an update, if anything. The filter is looked at
/// first, then whether anything is assigned, then the assigned columns.
pub open spec fn updater_fault(cols: Columns, set: Slots, filter: Elements) -> Option<QueryError> {
    if filter_fault(cols, filter) is Some {
        filter_fault(cols, filter)
    } else if set.len() == 0 {
        Some(QueryError::EmptyUpdateSet)
    } else if !columns_known(cols, set) {
        Some(QueryError::UnknownColumn)
    } else {
        None
    }
}

/// An update is valid exactly if it has no fault.
pub proof fn lemma_updater_valid_iff_no_fault(cols: Columns, set: Slots, filter: Elements)
    ensures
        updater_valid(cols, set, filter) <==> updater_fault(cols, set, filter) is None,
{
    lemma_valid_iff_no_fault(cols, filter);
}

/// The place of a column lies behind exactly the assignments that sort
/// before it.
pub proof fn lemma_rank(set: Slots, column: Seq<char>)
    ensures
        0 <= rank(set, column) <= set.len(),
        forall|k: int| 0 <= k < rank(set, column) ==> text_lt((#[trigger] set[k]).0, column),
        rank(set, column) < set.len() ==> !text_lt(set[rank(set, column)].0, column),
    decreases set.len(),
{
    if set.len() > 0 && text_lt(set[0].0, column) {
        let rest = set.drop_first();
        lemma_rank(rest, column);
        assert forall|k: int| 0 <= k < rank(set, column) implies text_lt(
            (#[trigger] set[k]).0,
            column,
        ) by {
            if k > 0 {
                assert(rest[k - 1] == set[k]);
            }
        }
        if rank(set, column) < set.len() {
            assert(rest[rank(rest, column)] == set[rank(set, column)]);
        }
    }
}

/// Assigning a column keeps the set sorted.
pub proof fn law_assigned_sorted(set: Slots, column: Seq<char>, value: LiteralView)
    requires
        sorted_by_column(set),
    ensures
        sorted_by_column(assigned(set, column, value)),
{
    let place = rank(set, column);
    let next = assigned(set, column, value);
    lemma_rank(set, column);
    if place < set.len() && set[place].0 == column {
        // The columns are the same as before, at the same places.
        assert forall|i: int, j: int| 0 <= i < j < next.len() implies text_lt(
            (#[trigger] next[i]).0,
            (#[trigger] next[j]).0,
        ) by {
            assert(next[i].0 == set[i].0 && next[j].0 == set[j].0);
        }
    } else {
        assert forall|i: int, j: int| 0 <= i < j < next.len() implies text_lt(
            (#[trigger] next[i]).0,
            (#[trigger] next[j]).0,
        ) by {
            let from_i = if i < place { i } else { i - 1 };
            let from_j = if j < place { j } else { j - 1 };
            if i == place {
                // What stood at the place, and all behind it, sorts behind the new column.
                assert(next[j] == set[from_j]);
                lemma_text_lt_total(set[place].0, column);
                if from_j > place {
                    assert(text_lt(set[place].0, set[from_j].0));
                    lemma_text_lt_transitive(column, set[place].0, set[from_j].0);
                }
            } else if j == place {
                assert(next[i] == set[i]);
            } else {
                assert(next[i] == set[from_i] && next[j] == set[from_j]);
            }
        }
    }
}

/// After a column is assigned, the set holds the new value for it and what
/// it held before for every other column.
pub proof fn law_assigned_holds(
    set: Slots,
    column: Seq<char>,
    value: LiteralView,
    entry: (Seq<char>, LiteralView),
)
    requires
        sorted_by_column(set),
    ensures
        assigned(set, column, value).contains(entry) <==> (entry == (column, value) || (
        entry.0 != column && set.contains(entry))),
{
    let place = rank(set, column);
    let next = assigned(set, column, value);
    lemma_rank(set, column);
    let replaces = place < set.len() && set[place].0 == column;
    assert(next[place] == (column, value));
    if next.contains(entry) {
        let k = choose|k: int| 0 <= k < next.len() && next[k] == entry;
        if k != place {
            let from = if replaces || k < place {
                k
            } else {
                k - 1
            };
            assert(set[from] == entry);
            if entry.0 == column {
                // No other assignment is of the same column: each sorts
                // before it or behind it.
                lemma_text_lt_irreflexive(column);
                if from > place {
                    assert(text_lt(set[place].0, set[from].0));
                    if !replaces {
                        lemma_text_lt_total(set[place].0, column);
                        lemma_text_lt_transitive(column, set[place].0, set[from].0);
                    }
                } else if from == place {
                    lemma_text_lt_total(set[place].0, column);
                }
            }
        }
    }
    if entry.0 != column && set.contains(entry) {
        let k = choose|k: int| 0 <= k < set.len() && set[k] == entry;
        let to = if replaces || k < place {
            k
        } else {
            k + 1
        };
        assert(next[to] == entry);
    }
}

/// New values for some columns of the rows that a filter selects.
///
/// The assignments are kept in the order of their columns' names, which is
/// the order in which they are written into the statement.
#[derive(Debug, PartialEq, Eq)]
pub struct Updater {
    set: Vec<BindSlot>,
    at: TableFilter,
}

impl Updater {
    #[verifier::type_invariant]
    spec fn well_formed(&self) -> bool {
        sorted_by_column(slots_of(self.set@))
    }

    /// The assignments in the order of their columns' names, each as its
    /// column and the literal assigned to it.
    pub closed spec fn assignments(&self) -> Slots {
        slots_of(self.set@)
    }

    /// The filter that selects the rows.
    pub closed spec fn filter(&self) -> Elements {
        self.at@
    }

    /// An update of the rows that `at` selects, which assigns nothing yet.
    pub fn new(at: TableFilter) -> (u: Updater)
        ensures
            u.assignments() == Slots::empty(),
            u.filter() == at@,
    {
        Updater { set: Vec::new(), at }
    }

    /// Assigns `value` to `column`. A column that is already assigned gets
    /// the new value.
    pub fn assign(self, column: String, value: Literal) -> (u: Updater)
        ensures
            u.assignments() == assigned(self.assignments(), column@, value@),
            u.filter() == self.filter(),
            sorted_by_column(u.assignments()),
    {
        proof {
            use_type_invariant(&self);
        }
        let ghost before = self.assignments();
        let Updater { mut set, at } = self;
        let n = set.len();
        let mut i: usize = 0;
        proof {
            assert(before.skip(0) =~= before);
        }
        while i < n && precedes(set[i].column.as_str(), column.as_str())
            invariant
                i <= n,
                n == set@.len(),
                before == slots_of(set@),
                rank(before, column@) == i + rank(before.skip(i as int), column@),
            decreases n - i,
        {
            proof {
                assert(before.skip(i as int).drop_first() =~= before.skip(i + 1));
            }
            i += 1;
        }
        proof {
            assert(rank(before, column@) == i) by {
                if i < n {
                    assert(before.skip(i as int)[0] == before[i as int]);
                }
            }
            law_assigned_sorted(before, column@, value@);
        }
        if i < n && same(set[i].column.as_str(), column.as_str()) {
            set.set(i, BindSlot { column, literal: value });
            assert(slots_of(set@) =~= before.update(i as int, (column@, value@)));
        } else {
            set.insert(i, BindSlot { column, literal: value });
            assert(slots_of(set@) =~= before.insert(i as int, (column@, value@)));
        }
        Updater { set, at }
    }

    /// The assignments, in the order of their columns' names.
    pub fn set(&self) -> (s: &Vec<BindSlot>)
        ensures
            slots_of(s@) == self.assignments(),
            sorted_by_column(self.assignments()),
    {
        proof {
            use_type_invariant(self);
        }
        &self.set
    }

    /// The filter that selects the rows.
    pub fn at(&self) -> (f: &TableFilter)
        ensures
            f@ == self.filter(),
    {
        &self.at
    }

    /// Whether the update can be compiled against the schema.
    pub fn valid(&self, schema: &Schema) -> (b: bool)
        ensures
            b == updater_valid(schema.columns(), self.assignments(), self.filter()),
    {
        if !self.at.valid(schema) {
            return false;
        }
        if self.set.len() == 0 {
            return false;
        }
        let ghost cols = schema.columns();
        let ghost set = self.assignments();
        let n = self.set.len();
        let mut i: usize = 0;
        while i < n
            invariant
                i <= n,
                n == self.set@.len(),
                cols == schema.columns(),
                set == slots_of(self.set@),
                forall|k: int| 0 <= k < i ==> has_column(cols, (#[trigger] set[k]).0),
            decreases n - i,
        {
            assert(set[i as int] == self.set@[i as int]@);
            if !schema.contains(self.set[i].column.as_str()) {
                return false;
            }
            i += 1;
        }
        true
    }

    /// Compiles the update into its statement and its bind slots.
    ///
    /// A valid update always compiles. The statement reads `UPDATE table
    /// SET c1 = ?, c2 = ? WHERE ...`, with the assignments in the order of
    /// their columns' names. The slots of the assignments come first, in
    /// that order, and the slots of the filter behind them. The table and
    /// the columns are written as the schema has them.
    ///
    /// An update that is not valid is refused: with the filter's fault if it
    /// has one, else because nothing is assigned, else because an assigned
    /// column is not in the schema.
    pub fn compile(&self, schema: &Schema) -> (r: Result<Statement, QueryError>)
        ensures
            sorted_by_column(self.assignments()),
            updater_valid(schema.columns(), self.assignments(), self.filter()) <==> r is Ok,
            match r {
                Ok(statement) => {
                    &&& statement.sql@ == update_text(
                        schema.table(),
                        self.assignments(),
                        self.filter(),
                    )
                    &&& slots_of(statement.binds@) == self.assignments() + filter_slots(
                        self.filter(),
                    )
                },
                Err(e) => updater_fault(schema.columns(), self.assignments(), self.filter())
                    == Some(e),
            },
    {
        let ghost cols = schema.columns();
        let ghost set = self.assignments();
        proof {
            use_type_invariant(self);
            lemma_valid_iff_no_fault(cols, self.filter());
        }
        let mut clause = match self.at.compile(schema) {
            Ok(clause) => clause,
            Err(e) => {
                return Err(e);
            },
        };
        let n = self.set.len();
        if n == 0 {
            return Err(QueryError::EmptyUpdateSet);
        }
        let mut sql = String::from_str("UPDATE ");
        sql.append(schema.table_name());
        sql.append(" SET ");
        let ghost head = sql@;
        let mut binds: Vec<BindSlot> = Vec::new();
        let mut i: usize = 0;
        while i < n
            invariant
                i <= n,
                n == self.set@.len(),
                cols == schema.columns(),
                set == slots_of(self.set@),
                sorted_by_column(set),
                filter_fault(cols, self.filter()) is None,
                forall|k: int| 0 <= k < i ==> has_column(cols, (#[trigger] set[k]).0),
                sql@ == head + assignments_text(set, i as int),
                binds@.len() == i,
                forall|k: int| 0 <= k < i ==> (#[trigger] binds@[k])@ == set[k],
            decreases n - i,
        {
            let slot = &self.set[i];
            proof {
                lemma_kind_iff_column(cols, slot.column@);
            }
            let column = match schema.find(slot.column.as_str()) {
                Some(own) => own,
                None => {
                    proof {
                        assert(!has_column(cols, set[i as int].0));
                    }
                    return Err(QueryError::UnknownColumn);
                },
            };
            sql.append(column.name.as_str());
            sql.append(" = ?");
            if i == n - 1 {
                sql.append(" ");
            } else {
                sql.append(", ");
            }
            assert(sql@ =~= head + assignments_text(set, i + 1));
            binds.push(BindSlot { column: column.name.clone(), literal: slot.literal.clone() });
            i += 1;
        }
        sql.append(clause.sql.as_str());
        binds.append(&mut clause.binds);
        assert(slots_of(binds@) =~= set + filter_slots(self.filter()));
        Ok(Statement { sql, binds })
    }
}

/// An update that assigns nothing is not valid, whatever its filter.
pub proof fn law_empty_set_invalid(cols: Columns, set: Slots, filter: Elements)
    requires
        set.len() == 0,
    ensures
        !updater_valid(cols, set, filter),
        filter_valid(cols, filter) ==> updater_fault(cols, set, filter) == Some(
            QueryError::EmptyUpdateSet,
        ),
{
    lemma_valid_iff_no_fault(cols, filter);
}

} // verus!
