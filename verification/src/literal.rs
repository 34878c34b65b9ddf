//! Literals as a caller supplies them, and the typed values that they
//! become once they are matched against a column's declared type.
//!
//! A double-precision number is carried by its IEEE-754 bit pattern, so that
//! no floating-point operation is needed to hand it on.

use crate::schema::SqliteType;
use vstd::prelude::*;

verus! {

/// A scalar as a caller supplies it, or as the engine returns it. It has no
/// type of its own until it is matched against a column.
#[derive(Debug, PartialEq, Eq)]
pub enum Literal {
    Null,
    Bool(bool),
    /// A whole number.
    Integer(i64),
    /// A number written with a fraction or an exponent, by the bits of the
    /// double that it denotes.
    Real(u64),
    Text(String),
}

/// What a [`Literal`] holds.
pub enum LiteralView {
    Null,
    Bool(bool),
    Integer(i64),
    Real(u64),
    Text(Seq<char>),
}

impl View for Literal {
    type V = LiteralView;

    open spec fn view(&self) -> LiteralView {
        match self {
            Literal::Null => LiteralView::Null,
            Literal::Bool(b) => LiteralView::Bool(*b),
            Literal::Integer(n) => LiteralView::Integer(*n),
            Literal::Real(bits) => LiteralView::Real(*bits),
            Literal::Text(s) => LiteralView::Text(s@),
        }
    }
}

impl Clone for Literal {
    fn clone(&self) -> (r: Literal)
        ensures
            r == *self,
    {
        match self {
            Literal::Null => Literal::Null,
            Literal::Bool(b) => Literal::Bool(*b),
            Literal::Integer(n) => Literal::Integer(*n),
            Literal::Real(bits) => Literal::Real(*bits),
            Literal::Text(s) => Literal::Text(s.clone()),
        }
    }
}

/// A double-precision number.
#[derive(Clone, Copy, Debug, PartialEq, Eq, Structural)]
pub enum Real {
    /// The double with this bit pattern.
    Bits(u64),
    /// The double nearest to this whole number.
    Whole(i64),
}

/// A value of one of the three types that a column can hold.
#[derive(Debug, PartialEq, Eq)]
pub enum Value {
    Integer(i64),
    Real(Real),
    Text(String),
}

/// What a [`Value`] holds.
pub enum ValueView {
    Integer(i64),
    Real(Real),
    Text(Seq<char>),
}

impl View for Value {
    type V = ValueView;

    open spec fn view(&self) -> ValueView {
        match self {
            Value::Integer(n) => ValueView::Integer(*n),
            Value::Real(x) => ValueView::Real(*x),
            Value::Text(s) => ValueView::Text(s@),
        }
    }
}

impl Clone for Value {
    fn clone(&self) -> (r: Value)
        ensures
            r == *self,
    {
        match self {
            Value::Integer(n) => Value::Integer(*n),
            Value::Real(x) => Value::Real(*x),
            Value::Text(s) => Value::Text(s.clone()),
        }
    }
}

/// The value that a literal stands for in a column of the given type.
///
/// An integer or primary-key column takes a whole number. A real column takes
/// any number, a whole one as the double nearest to it. A text column takes a
/// text. Nothing else is taken.
pub open spec fn coerced(kind: SqliteType, literal: LiteralView) -> Option<ValueView> {
    match kind {
        SqliteType::Integer | SqliteType::PrimaryKey => match literal {
            LiteralView::Integer(n) => Some(ValueView::Integer(n)),
            _ => None,
        },
        SqliteType::Real => match literal {
            LiteralView::Integer(n) => Some(ValueView::Real(Real::Whole(n))),
            LiteralView::Real(bits) => Some(ValueView::Real(Real::Bits(bits))),
            _ => None,
        },
        SqliteType::Text => match literal {
            LiteralView::Text(s) => Some(ValueView::Text(s)),
            _ => None,
        },
    }
}

/// Reads a literal as a value of the given column type, if it can be read so.
pub fn coerce(kind: SqliteType, literal: &Literal) -> (value: Option<Value>)
    ensures
        match value {
            Some(v) => coerced(kind, literal@) == Some(v@),
            None => coerced(kind, literal@) is None,
        },
{
    match kind {
        SqliteType::Integer | SqliteType::PrimaryKey => match literal {
            Literal::Integer(n) => Some(Value::Integer(*n)),
            _ => None,
        },
        SqliteType::Real => match literal {
            Literal::Integer(n) => Some(Value::Real(Real::Whole(*n))),
            Literal::Real(bits) => Some(Value::Real(Real::Bits(*bits))),
            _ => None,
        },
        SqliteType::Text => match literal {
            Literal::Text(s) => Some(Value::Text(s.clone())),
            _ => None,
        },
    }
}

/// A primary key is read and written as an integer is.
pub proof fn law_primary_key_as_integer(literal: LiteralView)
    ensures
        coerced(SqliteType::PrimaryKey, literal) == coerced(SqliteType::Integer, literal),
{
}

} // verus!
