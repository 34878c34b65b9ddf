//! The schemas of all tables, under the tables' names. The registry is
//! filled once, before the first request is served, and only read after
//! that: it is the ground truth that every request is validated against.

use crate::schema::{declared, Columns, Schema, Table};
use crate::text::same;
use vstd::prelude::*;

verus! {

/// The tables of a registry in their order, each as its name and columns.
pub type Entries = Seq<(Seq<char>, Columns)>;

/// The entries of a list of schemas: for each its table's name and its
/// columns.
pub open spec fn entries_of(list: Seq<Schema>) -> Entries {
    Seq::new(list.len(), |i: int| (list[i].table(), list[i].columns()))
}

/// Whether a table of that name is among the entries.
pub open spec fn has_table(entries: Entries, table: Seq<char>) -> bool {
    exists|i: int| 0 <= i < entries.len() && (#[trigger] entries[i]).0 == table
}

/// The columns of the first table of that name.
pub open spec fn table_columns(entries: Entries, table: Seq<char>) -> Option<Columns>
    decreases entries.len(),
{
    if entries.len() == 0 {
        None
    } else if entries[0].0 == table {
        Some(entries[0].1)
    } else {
        table_columns(entries.drop_first(), table)
    }
}

/// No name is given to two tables.
pub open spec fn tables_distinct(entries: Entries) -> bool {
    forall|i: int, j: int|
        0 <= i < j < entries.len() ==> (#[trigger] entries[i]).0 != (#[trigger] entries[j]).0
}

/// The entries with one more table registered: a table that is already
/// there keeps its schema and its place.
pub open spec fn registered(entries: Entries, table: Seq<char>, columns: Columns) -> Entries {
    if has_table(entries, table) {
        entries
    } else {
        entries.push((table, columns))
    }
}

/// A table has columns in the registry exactly if it is registered.
pub proof fn lemma_columns_iff_table(entries: Entries, table: Seq<char>)
    ensures
        table_columns(entries, table) is Some <==> has_table(entries, table),
    decreases entries.len(),
{
    if entries.len() > 0 {
        let rest = entries.drop_first();
        lemma_columns_iff_table(rest, table);
        if entries[0].0 != table {
            if has_table(rest, table) {
                let i = choose|i: int| 0 <= i < rest.len() && (#[trigger] rest[i]).0 == table;
                assert(entries[i + 1] == rest[i]);
            } else if has_table(entries, table) {
                let i = choose|i: int| 0 <= i < entries.len() && (#[trigger] entries[i]).0 == table;
                assert(rest[i - 1] == entries[i]);
            }
        }
    }
}

/// Registering a table keeps the names distinct, and the table is
/// registered after it.
pub proof fn law_registered_distinct(entries: Entries, table: Seq<char>, columns: Columns)
    requires
        tables_distinct(entries),
    ensures
        tables_distinct(registered(entries, table, columns)),
        has_table(registered(entries, table, columns), table),
{
    let next = registered(entries, table, columns);
    if !has_table(entries, table) {
        assert forall|i: int, j: int| 0 <= i < j < next.len() implies (#[trigger] next[i]).0 != (
        #[trigger] next[j]).0 by {
            assert(next[i] == entries[i]);
            if j < entries.len() {
                assert(next[j] == entries[j]);
            }
        }
        assert(next[entries.len() as int].0 == table);
    }
}

/// The schemas of all tables. There is one schema for each table name.
pub struct Registry {
    schemas: Vec<Schema>,
}

impl Registry {
    #[verifier::type_invariant]
    spec fn well_formed(&self) -> bool {
        tables_distinct(entries_of(self.schemas@))
    }

    /// The registered tables in the order of their registration, each as
    /// its name and its columns.
    pub closed spec fn entries(&self) -> Entries {
        entries_of(self.schemas@)
    }

    /// The registry without any table.
    pub fn new() -> (registry: Registry)
        ensures
            registry.entries() == Entries::empty(),
    {
        let registry = Registry { schemas: Vec::new() };
        assert(registry.entries() =~= Seq::empty());
        registry
    }

    /// Registers the schema of one more table. A table that is already
    /// registered keeps its schema and its place.
    pub fn register(self, schema: Schema) -> (registry: Registry)
        ensures
            registry.entries() == registered(self.entries(), schema.table(), schema.columns()),
    {
        proof {
            lemma_columns_iff_table(self.entries(), schema.table());
        }
        if self.get(schema.table_name()).is_some() {
            self
        } else {
            proof {
                use_type_invariant(&self);
                law_registered_distinct(self.entries(), schema.table(), schema.columns());
            }
            let ghost before = self.entries();
            let Registry { mut schemas } = self;
            schemas.push(schema);
            assert(entries_of(schemas@) =~= before.push((schema.table(), schema.columns())));
            Registry { schemas }
        }
    }

    /// Registers the schema of the table that holds the records of type `T`.
    pub fn register_table<T: Table>(self) -> (registry: Registry)
        ensures
            registry.entries() == registered(self.entries(), T::table(), declared(T::columns())),
    {
        self.register(Schema::of::<T>())
    }

    /// The schema of the table of that name.
    pub fn get(&self, table: &str) -> (found: Option<&Schema>)
        ensures
            match found {
                Some(schema) => schema.table() == table@ && table_columns(self.entries(), table@)
                    == Some(schema.columns()),
                None => table_columns(self.entries(), table@) is None,
            },
    {
        let ghost entries = self.entries();
        let n = self.schemas.len();
        let mut i: usize = 0;
        proof {
            assert(entries.skip(0) =~= entries);
        }
        while i < n
            invariant
                i <= n,
                n == self.schemas@.len(),
                entries == entries_of(self.schemas@),
                table_columns(entries, table@) == table_columns(entries.skip(i as int), table@),
            decreases n - i,
        {
            if same(self.schemas[i].table_name(), table) {
                return Some(&self.schemas[i]);
            }
            proof {
                assert(entries.skip(i as int).drop_first() =~= entries.skip(i + 1));
            }
            i += 1;
        }
        None
    }

    /// The schemas in the order of their registration.
    pub fn schemas(&self) -> (all: &Vec<Schema>)
        ensures
            entries_of(all@) == self.entries(),
            tables_distinct(self.entries()),
    {
        proof {
            use_type_invariant(self);
        }
        &self.schemas
    }
}

} // verus!
