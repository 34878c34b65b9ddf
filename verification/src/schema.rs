//! The schema of a table: its name and its columns, each with the type it
//! is declared as. Everything else is validated against it.

use crate::text::same;
use vstd::prelude::*;
use vstd::string::*;

verus! {

/// The storage type that a column is declared as.
#[derive(Clone, Copy, Debug, PartialEq, Eq, Structural)]
pub enum SqliteType {
    Text,
    Real,
    Integer,
    /// Read and written as an integer; marks the column that identifies a row.
    PrimaryKey,
}

/// One column of a table.
#[derive(Debug, PartialEq, Eq)]
pub struct Column {
    pub name: String,
    pub kind: SqliteType,
}

impl View for Column {
    type V = (Seq<char>, SqliteType);

    open spec fn view(&self) -> (Seq<char>, SqliteType) {
        (self.name@, self.kind)
    }
}

/// The columns of a table in their order, each as its name and type.
pub type Columns = Seq<(Seq<char>, SqliteType)>;

/// The columns of a list, each as its name and type.
pub open spec fn columns_of(list: Seq<Column>) -> Columns {
    Seq::new(list.len(), |i: int| list[i]@)
}

/// Whether a column of that name is among `cols`.
pub open spec fn has_column(cols: Columns, name: Seq<char>) -> bool {
    exists|i: int| 0 <= i < cols.len() && (#[trigger] cols[i]).0 == name
}

/// The declared type of the first column of that name.
pub open spec fn column_kind(cols: Columns, name: Seq<char>) -> Option<SqliteType>
    decreases cols.len(),
{
    if cols.len() == 0 {
        None
    } else if cols[0].0 == name {
        Some(cols[0].1)
    } else {
        column_kind(cols.drop_first(), name)
    }
}

/// No name is given to two columns.
pub open spec fn names_distinct(cols: Columns) -> bool {
    forall|i: int, j: int|
        0 <= i < j < cols.len() ==> (#[trigger] cols[i]).0 != (#[trigger] cols[j]).0
}

/// `cols` with one more column declared: a name already there keeps its
/// type and its place.
pub open spec fn declare(cols: Columns, name: Seq<char>, kind: SqliteType) -> Columns {
    if has_column(cols, name) {
        cols
    } else {
        cols.push((name, kind))
    }
}

/// The columns that result from declaring `fields` one after the other.
pub open spec fn declared(fields: Columns) -> Columns
    decreases fields.len(),
{
    if fields.len() == 0 {
        Seq::empty()
    } else {
        declare(declared(fields.drop_last()), fields.last().0, fields.last().1)
    }
}

/// A column has a declared type exactly if it is in the schema.
pub proof fn lemma_kind_iff_column(cols: Columns, name: Seq<char>)
    ensures
        column_kind(cols, name) is Some <==> has_column(cols, name),
    decreases cols.len(),
{
    if cols.len() > 0 {
        let rest = cols.drop_first();
        lemma_kind_iff_column(rest, name);
        if cols[0].0 != name {
            if has_column(rest, name) {
                let i = choose|i: int| 0 <= i < rest.len() && (#[trigger] rest[i]).0 == name;
                assert(cols[i + 1] == rest[i]);
            } else if has_column(cols, name) {
                let i = choose|i: int| 0 <= i < cols.len() && (#[trigger] cols[i]).0 == name;
                assert(rest[i - 1] == cols[i]);
            }
        }
    }
}

/// Where names are distinct, a column's type is found under its name.
pub proof fn law_column_found_by_name(cols: Columns, i: int)
    requires
        names_distinct(cols),
        0 <= i < cols.len(),
    ensures
        column_kind(cols, cols[i].0) == Some(cols[i].1),
    decreases cols.len(),
{
    if i > 0 {
        let rest = cols.drop_first();
        assert(names_distinct(rest)) by {
            assert forall|a: int, b: int| 0 <= a < b < rest.len() implies (#[trigger] rest[a]).0
                != (#[trigger] rest[b]).0 by {
                assert(rest[a] == cols[a + 1] && rest[b] == cols[b + 1]);
            }
        }
        assert(rest[i - 1] == cols[i] && cols[0].0 != cols[i].0);
        law_column_found_by_name(rest, i - 1);
    }
}

/// Declaring a column keeps the names distinct.
pub proof fn lemma_declare_distinct(cols: Columns, name: Seq<char>, kind: SqliteType)
    requires
        names_distinct(cols),
    ensures
        names_distinct(declare(cols, name, kind)),
        has_column(declare(cols, name, kind), name),
{
    let next = declare(cols, name, kind);
    if !has_column(cols, name) {
        assert forall|i: int, j: int| 0 <= i < j < next.len() implies (#[trigger] next[i]).0 != (
        #[trigger] next[j]).0 by {
            assert(next[i] == cols[i]);
            if j < cols.len() {
                assert(next[j] == cols[j]);
            }
        }
        assert(next[cols.len() as int].0 == name);
    }
}

/// Fields that already bear distinct names are declared as they stand.
pub proof fn law_distinct_fields_kept(fields: Columns)
    requires
        names_distinct(fields),
    ensures
        declared(fields) == fields,
    decreases fields.len(),
{
    if fields.len() > 0 {
        let front = fields.drop_last();
        assert(names_distinct(front)) by {
            assert forall|i: int, j: int| 0 <= i < j < front.len() implies (#[trigger] front[i]).0
                != (#[trigger] front[j]).0 by {
                assert(front[i] == fields[i] && front[j] == fields[j]);
            }
        }
        law_distinct_fields_kept(front);
        if has_column(front, fields.last().0) {
            let i = choose|i: int|
                0 <= i < front.len() && (#[trigger] front[i]).0 == fields.last().0;
            assert(front[i] == fields[i] && fields[fields.len() - 1] == fields.last());
        }
        assert(front.push(fields.last()) =~= fields);
    }
}

/// The type that a record's field is stored as, by the name of the field's
/// Rust type.
pub open spec fn kind_for(rust_type: Seq<char>) -> Option<SqliteType> {
    if rust_type == "u64"@ || rust_type == "i64"@ {
        Some(SqliteType::Integer)
    } else if rust_type == "f64"@ {
        Some(SqliteType::Real)
    } else if rust_type == "String"@ {
        Some(SqliteType::Text)
    } else {
        None
    }
}

/// The type that a record's field is stored as: `u64` and `i64` as an
/// integer, `f64` as a real, `String` as text. No other type can be stored.
pub fn sqlite_type_for(rust_type: &str) -> (kind: Option<SqliteType>)
    ensures
        kind == kind_for(rust_type@),
{
    if same(rust_type, "u64") || same(rust_type, "i64") {
        Some(SqliteType::Integer)
    } else if same(rust_type, "f64") {
        Some(SqliteType::Real)
    } else if same(rust_type, "String") {
        Some(SqliteType::Text)
    } else {
        None
    }
}

/// The name of the table that holds the records of a type.
pub open spec fn table_for(record: Seq<char>) -> Seq<char> {
    record + "Table"@
}

/// The fields of a record, each with the type it is stored as. `None` where
/// a field's type cannot be stored.
pub open spec fn fields_for(fields: Seq<(Seq<char>, Seq<char>)>) -> Option<Columns> {
    if forall|i: int| 0 <= i < fields.len() ==> kind_for((#[trigger] fields[i]).1) is Some {
        Some(Seq::new(fields.len(), |i: int| (fields[i].0, kind_for(fields[i].1)->0)))
    } else {
        None
    }
}

/// The fields of a record as pairs of a field's name and its type's name.
pub open spec fn field_names(fields: Seq<(String, String)>) -> Seq<(Seq<char>, Seq<char>)> {
    Seq::new(fields.len(), |i: int| (fields[i].0@, fields[i].1@))
}

/// A record type that is stored in a table of its own.
pub trait Table {
    /// The name of the table.
    spec fn table() -> Seq<char>;

    /// The columns of the table, in the order of the record's fields.
    spec fn columns() -> Columns;

    /// The name of the table.
    fn name() -> (n: &'static str)
        ensures
            n@ == Self::table(),
    ;

    /// The columns of the table, in the order of the record's fields.
    fn fields() -> (f: Vec<Column>)
        ensures
            columns_of(f@) == Self::columns(),
    ;
}

/// What is known of one table: its name and the type of each column.
///
/// A schema is built once, from trusted declarations, and only read after
/// that. No two of its columns bear the same name, and the columns keep the
/// order in which they were declared.
pub struct Schema {
    table: String,
    columns: Vec<Column>,
}

impl Schema {
    #[verifier::type_invariant]
    spec fn well_formed(&self) -> bool {
        names_distinct(columns_of(self.columns@))
    }

    /// The table's name.
    pub closed spec fn table(&self) -> Seq<char> {
        self.table@
    }

    /// The columns in declaration order, each as its name and type.
    pub closed spec fn columns(&self) -> Columns {
        columns_of(self.columns@)
    }

    /// The schema of a table without columns.
    pub fn new(table: &str) -> (s: Schema)
        ensures
            s.table() == table@,
            s.columns() == Columns::empty(),
    {
        let s = Schema { table: String::from_str(table), columns: Vec::new() };
        s
    }

    /// Declares one more column. A name that the schema already has keeps
    /// its type and its place.
    pub fn column(self, name: &str, kind: SqliteType) -> (s: Schema)
        ensures
            s.table() == self.table(),
            s.columns() == declare(self.columns(), name@, kind),
    {
        if self.contains(name) {
            self
        } else {
            proof {
                use_type_invariant(&self);
                lemma_declare_distinct(self.columns(), name@, kind);
            }
            let ghost before = self.columns();
            let Schema { table, mut columns } = self;
            columns.push(Column { name: String::from_str(name), kind });
            assert(columns_of(columns@) =~= before.push((name@, kind)));
            Schema { table, columns }
        }
    }

    /// The table's name.
    pub fn table_name(&self) -> (n: &str)
        ensures
            n@ == self.table(),
    {
        self.table.as_str()
    }

    /// The columns in declaration order.
    pub fn fields(&self) -> (f: &Vec<Column>)
        ensures
            columns_of(f@) == self.columns(),
            names_distinct(self.columns()),
    {
        proof {
            use_type_invariant(self);
        }
        &self.columns
    }

    /// Whether the table has a column of that name.
    pub fn contains(&self, name: &str) -> (b: bool)
        ensures
            b == has_column(self.columns(), name@),
    {
        proof {
            lemma_kind_iff_column(self.columns(), name@);
        }
        self.kind_of(name).is_some()
    }

    /// The schema's own column of that name.
    pub fn find(&self, name: &str) -> (found: Option<&Column>)
        ensures
            match found {
                Some(column) => column.name@ == name@ && column_kind(self.columns(), name@) == Some(
                    column.kind,
                ),
                None => column_kind(self.columns(), name@) is None,
            },
    {
        let ghost cols = self.columns();
        let n = self.columns.len();
        let mut i: usize = 0;
        proof {
            assert(cols.skip(0) =~= cols);
        }
        while i < n
            invariant
                i <= n,
                n == self.columns@.len(),
                cols == columns_of(self.columns@),
                column_kind(cols, name@) == column_kind(cols.skip(i as int), name@),
            decreases n - i,
        {
            if same(self.columns[i].name.as_str(), name) {
                return Some(&self.columns[i]);
            }
            proof {
                assert(cols.skip(i as int).drop_first() =~= cols.skip(i + 1));
            }
            i += 1;
        }
        None
    }

    /// The type that the column of that name is declared as.
    pub fn kind_of(&self, name: &str) -> (kind: Option<SqliteType>)
        ensures
            kind == column_kind(self.columns(), name@),
    {
        match self.find(name) {
            Some(column) => Some(column.kind),
            None => None,
        }
    }

    /// The schema of the table that holds the records of type `T`.
    pub fn of<T: Table>() -> (s: Schema)
        ensures
            s.table() == T::table(),
            s.columns() == declared(T::columns()),
    {
        let fields = T::fields();
        let mut s = Schema::new(T::name());
        let n = fields.len();
        let mut i: usize = 0;
        while i < n
            invariant
                i <= n,
                n == fields@.len(),
                s.table() == T::table(),
                s.columns() == declared(columns_of(fields@).take(i as int)),
            decreases n - i,
        {
            proof {
                let upto = columns_of(fields@).take(i + 1);
                assert(upto.drop_last() =~= columns_of(fields@).take(i as int));
            }
            s = s.column(fields[i].name.as_str(), fields[i].kind);
            i += 1;
        }
        proof {
            assert(columns_of(fields@).take(n as int) =~= columns_of(fields@));
        }
        s
    }

    /// The schema of the table for a record type, from the type's name and
    /// its fields, each given by its name and the name of its Rust type. The
    /// table is named after the record, with `Table` appended. `None` where a
    /// field's type cannot be stored.
    pub fn derive(record: &str, fields: &Vec<(String, String)>) -> (r: Option<Schema>)
        ensures
            match r {
                Some(s) => fields_for(field_names(fields@)) matches Some(cols) && s.table()
                    == table_for(record@) && s.columns() == declared(cols),
                None => fields_for(field_names(fields@)) is None,
            },
    {
        let ghost named = field_names(fields@);
        let mut table = String::from_str(record);
        table.append("Table");
        let mut s = Schema::new(table.as_str());
        let n = fields.len();
        let mut i: usize = 0;
        while i < n
            invariant
                i <= n,
                n == fields@.len(),
                named == field_names(fields@),
                s.table() == table_for(record@),
                fields_for(named.take(i as int)) matches Some(cols) && s.columns() == declared(
                    cols,
                ),
            decreases n - i,
        {
            let ghost upto = named.take(i + 1);
            match sqlite_type_for(fields[i].1.as_str()) {
                Some(kind) => {
                    proof {
                        let before = fields_for(named.take(i as int))->0;
                        assert forall|k: int| 0 <= k < upto.len() implies kind_for(
                            (#[trigger] upto[k]).1,
                        ) is Some by {
                            if k < i {
                                assert(named.take(i as int)[k] == upto[k]);
                            }
                        }
                        let after = fields_for(upto)->0;
                        assert(after.drop_last() =~= before);
                        assert(after.last() == (fields@[i as int].0@, kind));
                    }
                    s = s.column(fields[i].0.as_str(), kind);
                },
                None => {
                    proof {
                        if fields_for(named) is Some {
                            assert(kind_for(named[i as int].1) is Some);
                        }
                    }
                    return None;
                },
            }
            i += 1;
        }
        proof {
            assert(named.take(n as int) =~= named);
        }
        Some(s)
    }
}

/// A note, as the table `NoteTable` stores it.
pub struct Note {
    pub title: String,
    pub author: String,
    pub source: String,
    pub pub_date: i64,
}

impl Table for Note {
    open spec fn table() -> Seq<char> {
        "NoteTable"@
    }

    open spec fn columns() -> Columns {
        seq![
            ("title"@, SqliteType::Text),
            ("author"@, SqliteType::Text),
            ("source"@, SqliteType::Text),
            ("pub_date"@, SqliteType::Integer),
        ]
    }

    fn name() -> (n: &'static str) {
        "NoteTable"
    }

    fn fields() -> (f: Vec<Column>) {
        let mut f: Vec<Column> = Vec::new();
        f.push(Column { name: String::from_str("title"), kind: SqliteType::Text });
        f.push(Column { name: String::from_str("author"), kind: SqliteType::Text });
        f.push(Column { name: String::from_str("source"), kind: SqliteType::Text });
        f.push(Column { name: String::from_str("pub_date"), kind: SqliteType::Integer });
        f
    }
}

/// The schema of the table of notes has the four columns of a note, as
/// they are declared.
pub proof fn law_note_columns()
    ensures
        names_distinct(Note::columns()),
        declared(Note::columns()) == Note::columns(),
{
    reveal_strlit("title");
    reveal_strlit("author");
    reveal_strlit("source");
    reveal_strlit("pub_date");
    let cols = Note::columns();
    assert(cols[0].0 == "title"@ && cols[1].0 == "author"@ && cols[2].0 == "source"@ && cols[3].0
        == "pub_date"@);
    assert("author"@[0] != "source"@[0]);
    law_distinct_fields_kept(cols);
}

} // verus!
