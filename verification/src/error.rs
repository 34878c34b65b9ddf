//! The ways in which a query or an update can fail.

use vstd::prelude::*;
use vstd::string::*;

verus! {

/// Why a read or an update was not carried out, or not to its end.
#[derive(Clone, Copy, Debug, PartialEq, Eq, Structural)]
pub enum QueryError {
    /// A condition, an assignment or a requested column names a column that
    /// the schema does not have.
    UnknownColumn,
    /// A condition's operator is none of `=`, `!=`, `<`, `<=`, `>`, `>=`.
    OperatorNotAllowed,
    /// A connector other than `AND` or `OR` joins two conditions, or the last
    /// condition is followed by a connector.
    MalformedFilter,
    /// An update that assigns nothing.
    EmptyUpdateSet,
    /// A literal cannot be read as the type that its column declares.
    TypeMismatch,
    /// The pool handed out no connection.
    ConnectionAcquisitionFailure,
    /// The engine rejected or failed the statement.
    StatementExecutionFailure,
    /// A result row does not agree with the schema.
    RowDecodeFailure,
}

impl QueryError {
    /// The errors that are found in the request alone, before any connection
    /// is asked for.
    pub open spec fn validation(self) -> bool {
        self is UnknownColumn || self is OperatorNotAllowed || self is MalformedFilter
            || self is EmptyUpdateSet || self is TypeMismatch
    }

    /// Whether this error was found in the request alone.
    pub fn is_validation(&self) -> (b: bool)
        ensures
            b == self.validation(),
    {
        match self {
            QueryError::UnknownColumn => true,
            QueryError::OperatorNotAllowed => true,
            QueryError::MalformedFilter => true,
            QueryError::EmptyUpdateSet => true,
            QueryError::TypeMismatch => true,
            QueryError::ConnectionAcquisitionFailure => false,
            QueryError::StatementExecutionFailure => false,
            QueryError::RowDecodeFailure => false,
        }
    }

    /// The text of each error.
    pub open spec fn text(self) -> Seq<char> {
        match self {
            QueryError::UnknownColumn => "unknown column"@,
            QueryError::OperatorNotAllowed => "operator not allowed"@,
            QueryError::MalformedFilter => "malformed filter"@,
            QueryError::EmptyUpdateSet => "empty update set"@,
            QueryError::TypeMismatch => "type mismatch"@,
            QueryError::ConnectionAcquisitionFailure => "connection acquisition failure"@,
            QueryError::StatementExecutionFailure => "statement execution failure"@,
            QueryError::RowDecodeFailure => "row decode failure"@,
        }
    }

    /// A short description, for logs and responses.
    pub fn message(&self) -> (m: String)
        ensures
            m@ == self.text(),
    {
        match self {
            QueryError::UnknownColumn => String::from_str("unknown column"),
            QueryError::OperatorNotAllowed => String::from_str("operator not allowed"),
            QueryError::MalformedFilter => String::from_str("malformed filter"),
            QueryError::EmptyUpdateSet => String::from_str("empty update set"),
            QueryError::TypeMismatch => String::from_str("type mismatch"),
            QueryError::ConnectionAcquisitionFailure => String::from_str(
                "connection acquisition failure",
            ),
            QueryError::StatementExecutionFailure => String::from_str(
                "statement execution failure",
            ),
            QueryError::RowDecodeFailure => String::from_str("row decode failure"),
        }
    }
}

/// The first fault of a list of checks, each of which found a fault or none.
pub open spec fn first_fault(checks: Seq<Option<QueryError>>) -> Option<QueryError>
    decreases checks.len(),
{
    if checks.len() == 0 {
        None
    } else if checks[0] is Some {
        checks[0]
    } else {
        first_fault(checks.drop_first())
    }
}

/// There is no first fault exactly if no check found one.
pub proof fn lemma_first_fault_none(checks: Seq<Option<QueryError>>)
    ensures
        first_fault(checks) is None <==> forall|i: int|
            0 <= i < checks.len() ==> #[trigger] checks[i] is None,
    decreases checks.len(),
{
    if checks.len() > 0 {
        let rest = checks.drop_first();
        lemma_first_fault_none(rest);
        if checks[0] is None {
            if first_fault(rest) is None {
                assert forall|i: int| 0 <= i < checks.len() implies #[trigger] checks[i]
                    is None by {
                    if i > 0 {
                        assert(rest[i - 1] == checks[i]);
                    }
                }
            } else {
                let i = choose|i: int| 0 <= i < rest.len() && !(#[trigger] rest[i] is None);
                assert(checks[i + 1] == rest[i]);
            }
        }
    }
}

/// The first fault is that of the first check that found one.
pub proof fn lemma_first_fault_at(checks: Seq<Option<QueryError>>, at: int)
    requires
        0 <= at < checks.len(),
        checks[at] is Some,
        forall|i: int| 0 <= i < at ==> #[trigger] checks[i] is None,
    ensures
        first_fault(checks) == checks[at],
    decreases at,
{
    if at > 0 {
        let rest = checks.drop_first();
        assert forall|i: int| 0 <= i < at - 1 implies #[trigger] rest[i] is None by {
            assert(rest[i] == checks[i + 1]);
        }
        lemma_first_fault_at(rest, at - 1);
    }
}

/// A first fault is the fault of one of the checks.
pub proof fn lemma_first_fault_among(checks: Seq<Option<QueryError>>)
    requires
        first_fault(checks) is Some,
    ensures
        exists|i: int| 0 <= i < checks.len() && #[trigger] checks[i] == first_fault(checks),
    decreases checks.len(),
{
    if checks[0] is None {
        let rest = checks.drop_first();
        lemma_first_fault_among(rest);
        let i = choose|i: int| 0 <= i < rest.len() && #[trigger] rest[i] == first_fault(rest);
        assert(checks[i + 1] == rest[i]);
    }
}

} // verus!
