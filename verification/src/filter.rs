//! Conditions on single columns, and filters that join them with `AND` and
//! `OR` into the `WHERE` clause of a statement.

use crate::error::{first_fault, lemma_first_fault_at, lemma_first_fault_none, QueryError};
use crate::literal::{Literal, LiteralView};
use crate::schema::{has_column, lemma_kind_iff_column, Columns, Schema};
use crate::statement::{slots_of, BindSlot, Slots, Statement};
use crate::text::same;
use vstd::prelude::*;
use vstd::string::*;

verus! {

/// One predicate: a column, an operator and a literal, in this order.
#[derive(Debug, PartialEq, Eq)]
pub struct FieldCondition(pub String, pub String, pub Literal);

/// What a [`FieldCondition`] holds.
pub struct ConditionView {
    pub column: Seq<char>,
    pub operator: Seq<char>,
    pub literal: LiteralView,
}

impl View for FieldCondition {
    type V = ConditionView;

    open spec fn view(&self) -> ConditionView {
        ConditionView { column: self.0@, operator: self.1@, literal: self.2@ }
    }
}

/// The elements of a filter from left to right: each condition with the
/// connector behind it.
pub type Elements = Seq<(ConditionView, Seq<char>)>;

/// The operators that a condition may use.
pub open spec fn operator_allowed(operator: Seq<char>) -> bool {
    operator == "="@ || operator == ">="@ || operator == "<="@ || operator == "<"@ || operator
        == ">"@ || operator == "!="@
}

/// The connectors that may join a condition to the next one.
pub open spec fn connector_joins(connector: Seq<char>) -> bool {
    connector == "AND"@ || connector == "OR"@
}

/// A condition is valid against the columns of a schema if its operator is
/// allowed and its column is among them. The literal is not looked at.
pub open spec fn condition_valid(cols: Columns, c: ConditionView) -> bool {
    operator_allowed(c.operator) && has_column(cols, c.column)
}

/// A filter is valid if it is empty, or if every condition is valid, every
/// connector but the last is `AND` or `OR`, and the last connector is empty.
pub open spec fn filter_valid(cols: Columns, filter: Elements) -> bool {
    filter.len() == 0 || {
        &&& forall|i: int| 0 <= i < filter.len() ==> condition_valid(cols, (#[trigger] filter[i]).0)
        &&& forall|i: int| 0 <= i < filter.len() - 1 ==> connector_joins((#[trigger] filter[i]).1)
        &&& filter.last().1.len() == 0
    }
}

/// What is wrong with one element of a filter, if anything. Its operator is
/// looked at first, then its column, then its connector.
pub open spec fn element_fault(
    cols: Columns,
    element: (ConditionView, Seq<char>),
    last: bool,
) -> Option<QueryError> {
    if !operator_allowed(element.0.operator) {
        Some(QueryError::OperatorNotAllowed)
    } else if !has_column(cols, element.0.column) {
        Some(QueryError::UnknownColumn)
    } else if last && element.1.len() != 0 {
        Some(QueryError::MalformedFilter)
    } else if !last && !connector_joins(element.1) {
        Some(QueryError::MalformedFilter)
    } else {
        None
    }
}

/// The check of each element of a filter.
pub open spec fn element_faults(cols: Columns, filter: Elements) -> Seq<Option<QueryError>> {
    Seq::new(filter.len(), |i: int| element_fault(cols, filter[i], i == filter.len() - 1))
}

/// What is wrong with a filter, if anything: the fault of the first element
/// that has one.
pub open spec fn filter_fault(cols: Columns, filter: Elements) -> Option<QueryError> {
    first_fault(element_faults(cols, filter))
}

/// The text of one element: `column operator ?`, followed by the connector
/// between spaces unless the element is the last.
pub open spec fn element_text(element: (ConditionView, Seq<char>), last: bool) -> Seq<char> {
    element.0.column + " "@ + element.0.operator + " ?"@ + if last {
        Seq::<char>::empty()
    } else {
        " "@ + element.1 + " "@
    }
}

/// The text of the first `n` elements of a filter.
pub open spec fn elements_text(filter: Elements, n: int) -> Seq<char>
    decreases n,
{
    if n <= 0 {
        Seq::<char>::empty()
    } else {
        elements_text(filter, n - 1) + element_text(filter[n - 1], n == filter.len())
    }
}

/// The clause of a filter: nothing for the empty filter, else `WHERE` and
/// the conditions from left to right, each with `?` in place of its literal.
pub open spec fn filter_clause(filter: Elements) -> Seq<char> {
    if filter.len() == 0 {
        Seq::<char>::empty()
    } else {
        "WHERE "@ + elements_text(filter, filter.len() as int)
    }
}

/// The bind slots of a filter: the column and the literal of each
/// condition, from left to right.
pub open spec fn filter_slots(filter: Elements) -> Slots {
    Seq::new(filter.len(), |i: int| (filter[i].0.column, filter[i].0.literal))
}

/// A filter is valid exactly if it has no fault.
pub proof fn lemma_valid_iff_no_fault(cols: Columns, filter: Elements)
    ensures
        filter_valid(cols, filter) <==> filter_fault(cols, filter) is None,
{
    let checks = element_faults(cols, filter);
    lemma_first_fault_none(checks);
    if filter.len() > 0 {
        let n = filter.len() as int;
        if filter_valid(cols, filter) {
            assert forall|i: int| 0 <= i < n implies #[trigger] checks[i] is None by {
                assert(condition_valid(cols, filter[i].0));
            }
        }
        if filter_fault(cols, filter) is None {
            assert forall|i: int| 0 <= i < n implies condition_valid(
                cols,
                (#[trigger] filter[i]).0,
            ) by {
                assert(checks[i] is None);
            }
            assert forall|i: int| 0 <= i < n - 1 implies connector_joins(
                (#[trigger] filter[i]).1,
            ) by {
                assert(checks[i] is None);
            }
            assert(checks[n - 1] is None);
        }
    }
}

/// The bind slots of a filter follow its conditions: there is one slot for
/// each condition, at the condition's place, with the condition's column
/// and literal.
pub proof fn law_slots_follow_conditions(filter: Elements, i: int)
    requires
        0 <= i < filter.len(),
    ensures
        filter_slots(filter).len() == filter.len(),
        filter_slots(filter)[i] == (filter[i].0.column, filter[i].0.literal),
{
}

/// A condition on a column that the schema does not have is not valid,
/// whatever its operator.
pub proof fn law_unknown_column_invalid(cols: Columns, c: ConditionView)
    requires
        !has_column(cols, c.column),
    ensures
        !condition_valid(cols, c),
{
}

/// A filter whose last connector is not empty is not valid.
pub proof fn law_last_connector_empty(cols: Columns, filter: Elements)
    requires
        filter.len() > 0,
        filter.last().1.len() != 0,
    ensures
        !filter_valid(cols, filter),
{
}

/// A filter in which a connector other than `AND` and `OR` stands before
/// the last place is not valid.
pub proof fn law_inner_connector_joins(cols: Columns, filter: Elements, i: int)
    requires
        0 <= i < filter.len() - 1,
        !connector_joins(filter[i].1),
    ensures
        !filter_valid(cols, filter),
{
}

/// The operator as the library writes it, if it is allowed.
fn allowed_operator(operator: &str) -> (r: Option<&'static str>)
    ensures
        match r {
            Some(own) => own@ == operator@ && operator_allowed(operator@),
            None => !operator_allowed(operator@),
        },
{
    if same(operator, "=") {
        Some("=")
    } else if same(operator, ">=") {
        Some(">=")
    } else if same(operator, "<=") {
        Some("<=")
    } else if same(operator, "<") {
        Some("<")
    } else if same(operator, ">") {
        Some(">")
    } else if same(operator, "!=") {
        Some("!=")
    } else {
        None
    }
}

/// The connector as the library writes it, if it joins two conditions.
fn joining_connector(connector: &str) -> (r: Option<&'static str>)
    ensures
        match r {
            Some(own) => own@ == connector@ && connector_joins(connector@),
            None => !connector_joins(connector@),
        },
{
    if same(connector, "OR") {
        Some("OR")
    } else if same(connector, "AND") {
        Some("AND")
    } else {
        None
    }
}

impl FieldCondition {
    /// The column that the condition is about.
    pub fn name(&self) -> (n: &str)
        ensures
            n@ == self@.column,
    {
        self.0.as_str()
    }

    /// The operator that compares the column with the literal.
    pub fn op(&self) -> (o: &str)
        ensures
            o@ == self@.operator,
    {
        self.1.as_str()
    }

    /// The literal that the column is compared with.
    pub fn value(&self) -> (v: &Literal)
        ensures
            v@ == self@.literal,
    {
        &self.2
    }

    /// Whether the operator is allowed and the column is in the schema.
    /// Whether the literal fits the column's type is found out when it is
    /// bound.
    pub fn valid(&self, schema: &Schema) -> (b: bool)
        ensures
            b == condition_valid(schema.columns(), self@),
    {
        if allowed_operator(self.op()).is_some() {
            return schema.contains(self.name());
        }
        false
    }
}

/// A flat boolean expression: conditions from left to right, each followed
/// by the connector that joins it to the next. The last connector is empty.
#[derive(Debug, PartialEq, Eq)]
pub struct TableFilter(pub Vec<(FieldCondition, String)>);

impl View for TableFilter {
    type V = Elements;

    open spec fn view(&self) -> Elements {
        Seq::new(self.0@.len(), |i: int| (self.0@[i].0@, self.0@[i].1@))
    }
}

impl TableFilter {
    /// The conditions, each with its connector.
    pub fn expr(&self) -> (e: &Vec<(FieldCondition, String)>)
        ensures
            *e == self.0,
    {
        &self.0
    }

    /// Whether the filter can be compiled against the schema. The empty
    /// filter always can: it restricts nothing.
    pub fn valid(&self, schema: &Schema) -> (b: bool)
        ensures
            b == filter_valid(schema.columns(), self@),
    {
        let n = self.0.len();
        if n == 0 {
            return true;
        }
        let ghost cols = schema.columns();
        let mut i: usize = 0;
        while i < n - 1
            invariant
                0 < n,
                i <= n - 1,
                n == self.0@.len(),
                cols == schema.columns(),
                forall|k: int| 0 <= k < i ==> condition_valid(cols, (#[trigger] self@[k]).0),
                forall|k: int| 0 <= k < i ==> connector_joins((#[trigger] self@[k]).1),
            decreases n - i,
        {
            let cond = &self.0[i];
            assert(self@[i as int] == (cond.0@, cond.1@));
            if !cond.0.valid(schema) {
                return false;
            }
            if joining_connector(cond.1.as_str()).is_none() {
                return false;
            }
            i += 1;
        }
        let last = &self.0[n - 1];
        if !last.0.valid(schema) || !last.1.as_str().is_empty() {
            return false;
        }
        true
    }

    /// Compiles the filter into its clause and its bind slots.
    ///
    /// A valid filter always compiles. Its clause reads `WHERE c1 op1 ? AND
    /// c2 op2 ? ...`, and there is one slot for each condition, in the order
    /// of the conditions. The empty filter compiles to no clause at all. The
    /// column names are written as the schema has them and the operators and
    /// connectors as this library has them, so that nothing of the request
    /// but the place of a literal reaches the text.
    ///
    /// A filter that is not valid is refused with the fault of its first
    /// faulty element.
    pub fn compile(&self, schema: &Schema) -> (r: Result<Statement, QueryError>)
        ensures
            filter_valid(schema.columns(), self@) <==> r is Ok,
            match r {
                Ok(clause) => {
                    &&& clause.sql@ == filter_clause(self@)
                    &&& slots_of(clause.binds@) == filter_slots(self@)
                    &&& clause.binds@.len() == self@.len()
                },
                Err(e) => filter_fault(schema.columns(), self@) == Some(e),
            },
    {
        let ghost cols = schema.columns();
        let ghost checks = element_faults(cols, self@);
        proof {
            lemma_valid_iff_no_fault(cols, self@);
        }
        let mut sql = String::new();
        let mut binds: Vec<BindSlot> = Vec::new();
        let n = self.0.len();
        if n == 0 {
            return Ok(Statement { sql, binds });
        }
        sql.append("WHERE ");
        let mut i: usize = 0;
        while i < n
            invariant
                0 < n,
                i <= n,
                n == self.0@.len(),
                cols == schema.columns(),
                checks == element_faults(cols, self@),
                forall|k: int| 0 <= k < i ==> #[trigger] checks[k] is None,
                sql@ == "WHERE "@ + elements_text(self@, i as int),
                binds@.len() == i,
                forall|k: int| 0 <= k < i ==> (#[trigger] binds@[k])@ == filter_slots(self@)[k],
            decreases n - i,
        {
            let element = &self.0[i];
            let last = i == n - 1;
            let ghost shown = (element.0@, element.1@);
            let operator = match allowed_operator(element.0.op()) {
                Some(own) => own,
                None => {
                    proof {
                        lemma_first_fault_at(checks, i as int);
                    }
                    return Err(QueryError::OperatorNotAllowed);
                },
            };
            proof {
                lemma_kind_iff_column(cols, shown.0.column);
            }
            let column = match schema.find(element.0.name()) {
                Some(own) => own,
                None => {
                    proof {
                        lemma_first_fault_at(checks, i as int);
                    }
                    return Err(QueryError::UnknownColumn);
                },
            };
            let ghost before = sql@;
            sql.append(column.name.as_str());
            sql.append(" ");
            sql.append(operator);
            sql.append(" ?");
            if last {
                if !element.1.as_str().is_empty() {
                    proof {
                        lemma_first_fault_at(checks, i as int);
                    }
                    return Err(QueryError::MalformedFilter);
                }
            } else {
                match joining_connector(element.1.as_str()) {
                    Some(own) => {
                        sql.append(" ");
                        sql.append(own);
                        sql.append(" ");
                    },
                    None => {
                        proof {
                            lemma_first_fault_at(checks, i as int);
                        }
                        return Err(QueryError::MalformedFilter);
                    },
                }
            }
            assert(sql@ =~= before + element_text(shown, last));
            binds.push(BindSlot { column: column.name.clone(), literal: element.0.2.clone() });
            i += 1;
        }
        proof {
            lemma_first_fault_none(checks);
        }
        Ok(Statement { sql, binds })
    }
}

} // verus!
