//! Result rows, and the documents that they are turned into under the
//! guidance of the schema.

use crate::error::QueryError;
use crate::literal::{coerce, coerced, Literal, LiteralView, Value, ValueView};
use crate::schema::{columns_of, has_column, Columns, Schema, SqliteType};
use crate::statement::Slots;
use crate::text::same;
use vstd::prelude::*;

verus! {

/// One column of a result row: the column's name and the scalar that the
/// engine returned for it.
#[derive(Debug, PartialEq, Eq)]
pub struct Cell {
    pub column: String,
    pub value: Literal,
}

impl View for Cell {
    type V = (Seq<char>, LiteralView);

    open spec fn view(&self) -> (Seq<char>, LiteralView) {
        (self.column@, self.value@)
    }
}

/// The fields of a document in their order, each as its column and value.
pub type Fields = Seq<(Seq<char>, ValueView)>;

/// The cells of a row, each as its column and scalar.
pub open spec fn cells_of(row: Seq<Cell>) -> Slots {
    Seq::new(row.len(), |i: int| row[i]@)
}

/// The names of a list.
pub open spec fn names_of(list: Seq<String>) -> Seq<Seq<char>> {
    Seq::new(list.len(), |i: int| list[i]@)
}

/// The scalar of the first cell of that name.
pub open spec fn cell_value(row: Slots, name: Seq<char>) -> Option<LiteralView>
    decreases row.len(),
{
    if row.len() == 0 {
        None
    } else if row[0].0 == name {
        Some(row[0].1)
    } else {
        cell_value(row.drop_first(), name)
    }
}

/// Every cell of the row belongs to a column of the schema.
pub open spec fn row_known(cols: Columns, row: Slots) -> bool {
    forall|i: int| 0 <= i < row.len() ==> has_column(cols, (#[trigger] row[i]).0)
}

/// The value of a column in a row: the scalar of the column's cell, read as
/// the column's declared type.
pub open spec fn field_value(column: (Seq<char>, SqliteType), row: Slots) -> Option<ValueView> {
    match cell_value(row, column.0) {
        Some(scalar) => coerced(column.1, scalar),
        None => None,
    }
}

/// A row can be turned into a document if each of its cells belongs to a
/// column of the schema and every column of the schema has a value in it.
pub open spec fn row_decodes(cols: Columns, row: Slots) -> bool {
    row_known(cols, row) && forall|j: int|
        0 <= j < cols.len() ==> field_value(#[trigger] cols[j], row) is Some
}

/// The fields of the document for a row: one for each column of the schema,
/// in the order of the schema.
pub open spec fn row_fields(cols: Columns, row: Slots) -> Fields {
    Seq::new(cols.len(), |j: int| (cols[j].0, field_value(cols[j], row)->0))
}

/// Whether a field is one of the requested columns.
pub open spec fn requested_field(names: Seq<Seq<char>>) -> spec_fn((Seq<char>, ValueView)) -> bool {
    |field: (Seq<char>, ValueView)| names.contains(field.0)
}

/// The fields that are left of a document when only the requested columns
/// are kept. They keep their order.
pub open spec fn projected(fields: Fields, names: Seq<Seq<char>>) -> Fields {
    fields.filter(requested_field(names))
}

/// The value of the first field of that name.
pub open spec fn field_of(fields: Fields, name: Seq<char>) -> Option<ValueView>
    decreases fields.len(),
{
    if fields.len() == 0 {
        None
    } else if fields[0].0 == name {
        Some(fields[0].1)
    } else {
        field_of(fields.drop_first(), name)
    }
}

/// One row of a result: for each column its name and its typed value.
#[derive(Debug, PartialEq, Eq)]
pub struct Document {
    pub fields: Vec<(String, Value)>,
}

impl View for Document {
    type V = Fields;

    open spec fn view(&self) -> Fields {
        Seq::new(self.fields@.len(), |i: int| (self.fields@[i].0@, self.fields@[i].1@))
    }
}

/// Whether `name` is one of `names`.
fn listed(names: &Vec<String>, name: &str) -> (b: bool)
    ensures
        b == names_of(names@).contains(name@),
{
    let ghost all = names_of(names@);
    let n = names.len();
    let mut i: usize = 0;
    while i < n
        invariant
            i <= n,
            n == names@.len(),
            all == names_of(names@),
            forall|k: int| 0 <= k < i ==> all[k] != name@,
        decreases n - i,
    {
        if same(names[i].as_str(), name) {
            assert(all[i as int] == name@);
            return true;
        }
        i += 1;
    }
    false
}

/// The scalar that a row holds for a column.
fn cell_named<'a>(row: &'a Vec<Cell>, name: &str) -> (found: Option<&'a Literal>)
    ensures
        match found {
            Some(scalar) => cell_value(cells_of(row@), name@) == Some(scalar@),
            None => cell_value(cells_of(row@), name@) is None,
        },
{
    let ghost cells = cells_of(row@);
    let n = row.len();
    let mut i: usize = 0;
    proof {
        assert(cells.skip(0) =~= cells);
    }
    while i < n
        invariant
            i <= n,
            n == row@.len(),
            cells == cells_of(row@),
            cell_value(cells, name@) == cell_value(cells.skip(i as int), name@),
        decreases n - i,
    {
        if same(row[i].column.as_str(), name) {
            return Some(&row[i].value);
        }
        proof {
            assert(cells.skip(i as int).drop_first() =~= cells.skip(i + 1));
        }
        i += 1;
    }
    None
}

impl Document {
    /// The value of a column.
    pub fn get(&self, column: &str) -> (found: Option<&Value>)
        ensures
            match found {
                Some(value) => field_of(self@, column@) == Some(value@),
                None => field_of(self@, column@) is None,
            },
    {
        let ghost fields = self@;
        let n = self.fields.len();
        let mut i: usize = 0;
        proof {
            assert(fields.skip(0) =~= fields);
        }
        while i < n
            invariant
                i <= n,
                n == self.fields@.len(),
                fields == self@,
                field_of(fields, column@) == field_of(fields.skip(i as int), column@),
            decreases n - i,
        {
            if same(self.fields[i].0.as_str(), column) {
                return Some(&self.fields[i].1);
            }
            proof {
                assert(fields.skip(i as int).drop_first() =~= fields.skip(i + 1));
            }
            i += 1;
        }
        None
    }

    /// The document with only the requested columns, in the order that they
    /// have in this document.
    pub fn project(&self, requested: &Vec<String>) -> (d: Document)
        ensures
            d@ == projected(self@, names_of(requested@)),
    {
        let ghost fields = self@;
        let ghost names = names_of(requested@);
        let mut kept: Vec<(String, Value)> = Vec::new();
        let n = self.fields.len();
        let mut i: usize = 0;
        proof {
            reveal(Seq::filter);
        }
        while i < n
            invariant
                i <= n,
                n == self.fields@.len(),
                fields == self@,
                names == names_of(requested@),
                (Document { fields: kept })@ == projected(fields.take(i as int), names),
            decreases n - i,
        {
            let ghost before = (Document { fields: kept })@;
            proof {
                reveal(Seq::filter);
                assert(fields.take(i + 1).drop_last() =~= fields.take(i as int));
            }
            if listed(requested, self.fields[i].0.as_str()) {
                kept.push((self.fields[i].0.clone(), self.fields[i].1.clone()));
            }
            i += 1;
        }
        proof {
            assert(fields.take(n as int) =~= fields);
        }
        Document { fields: kept }
    }
}

/// Turns a result row into a document.
///
/// For every column of the schema, in the order of the schema, the row's
/// cell of that name is read as the column's declared type. A row with a
/// cell that the schema does not describe, or without a value of the
/// declared type for some column, is refused.
pub fn materialize(schema: &Schema, row: &Vec<Cell>) -> (r: Result<Document, QueryError>)
    ensures
        match r {
            Ok(document) => row_decodes(schema.columns(), cells_of(row@)) && document@
                == row_fields(schema.columns(), cells_of(row@)),
            Err(e) => e == QueryError::RowDecodeFailure && !row_decodes(
                schema.columns(),
                cells_of(row@),
            ),
        },
{
    let ghost cols = schema.columns();
    let ghost cells = cells_of(row@);
    let n = row.len();
    let mut i: usize = 0;
    while i < n
        invariant
            i <= n,
            n == row@.len(),
            cols == schema.columns(),
            cells == cells_of(row@),
            forall|k: int| 0 <= k < i ==> has_column(cols, (#[trigger] cells[k]).0),
        decreases n - i,
    {
        assert(cells[i as int] == row@[i as int]@);
        if !schema.contains(row[i].column.as_str()) {
            return Err(QueryError::RowDecodeFailure);
        }
        i += 1;
    }
    let columns = schema.fields();
    let mut fields: Vec<(String, Value)> = Vec::new();
    let m = columns.len();
    let mut j: usize = 0;
    while j < m
        invariant
            j <= m,
            m == columns@.len(),
            cols == schema.columns(),
            cols == columns_of(columns@),
            cells == cells_of(row@),
            row_known(cols, cells),
            fields@.len() == j,
            forall|k: int| 0 <= k < j ==> field_value(#[trigger] cols[k], cells) is Some,
            forall|k: int|
                0 <= k < j ==> ((#[trigger] fields@[k]).0@, fields@[k].1@) == (
                    cols[k].0,
                    field_value(cols[k], cells)->0,
                ),
        decreases m - j,
    {
        let column = &columns[j];
        let scalar = match cell_named(row, column.name.as_str()) {
            Some(scalar) => scalar,
            None => {
                return Err(QueryError::RowDecodeFailure);
            },
        };
        match coerce(column.kind, scalar) {
            Some(value) => {
                fields.push((column.name.clone(), value));
            },
            None => {
                assert(field_value(cols[j as int], cells) is None);
                return Err(QueryError::RowDecodeFailure);
            },
        }
        j += 1;
    }
    let document = Document { fields };
    Ok(document)
}

} // verus!
