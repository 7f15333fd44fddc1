//! Table descriptors and the registry of a schema's tables.

use vstd::prelude::*;
use core::marker::PhantomData;
use crate::error::DatabaseError;
use crate::traits::WrapEncodable;
use crate::tx::{LibmdbxTx, RW};

verus! {

/// Whether a key of the table holds one value or several.
#[derive(Clone, Copy, Debug, PartialEq, Eq, Structural)]
pub enum TableType {
    /// One value under each key.
    Table,
    /// Several values under a key, kept in order.
    DupSort,
}

/// The flags with which the engine creates a table. What is not listed
/// keeps the engine's default.
#[derive(Clone, Copy, Debug, PartialEq, Eq, Structural)]
pub struct DatabaseFlags {
    pub dup_sort: bool,
}

/// The flags that belong to a table type.
pub open spec fn creation_flags(table_type: TableType) -> DatabaseFlags {
    DatabaseFlags { dup_sort: table_type == TableType::DupSort }
}

/// The descriptor of a table: its name in the engine, the types of its
/// keys and values by their names, and whether a key holds several values.
#[derive(Debug, PartialEq, Eq)]
pub struct TableDet {
    pub name: String,
    pub key_type: String,
    pub value_type: String,
    pub table_type: TableType,
}

/// A table of a registry with its key and value types: what `bind` hands
/// out once it has held the types against the table's declaration. A handle
/// belongs to the registry that bound it.
#[derive(Debug, PartialEq, Eq)]
pub struct Table<K, V> {
    position: usize,
    key: PhantomData<K>,
    value: PhantomData<V>,
}

impl<K, V> Table<K, V> {
    /// The table's position in the registry.
    pub closed spec fn position(&self) -> usize {
        self.position
    }

    /// Gives the table's position in the registry.
    pub fn at(&self) -> (position: usize)
        ensures
            position == self.position(),
    {
        self.position
    }
}

impl TableDet {
    /// A descriptor of a table called `name` with keys of type `K` and
    /// values of type `V`.
    pub fn new<K: WrapEncodable, V: WrapEncodable>(name: &str, table_type: TableType) -> (table:
        TableDet)
        ensures
            table.name@ == name@,
            table.key_type@ == K::name(),
            table.value_type@ == V::name(),
            table.table_type == table_type,
    {
        TableDet {
            name: name.to_owned(),
            key_type: K::name_of_type(),
            value_type: V::name_of_type(),
            table_type,
        }
    }

    /// The table's name.
    pub fn name(&self) -> (name: &String)
        ensures
            *name == self.name,
    {
        &self.name
    }

    /// The table's type.
    pub fn table_type(&self) -> (t: TableType)
        ensures
            t == self.table_type,
    {
        self.table_type
    }

    /// Whether a key of the table may hold several values.
    pub fn is_dupsort(&self) -> (d: bool)
        ensures
            d == (self.table_type == TableType::DupSort),
    {
        match self.table_type {
            TableType::DupSort => true,
            TableType::Table => false,
        }
    }

    /// The flags with which the engine creates the table.
    pub fn flags(&self) -> (f: DatabaseFlags)
        ensures
            f == creation_flags(self.table_type),
    {
        DatabaseFlags { dup_sort: self.is_dupsort() }
    }

    /// A second descriptor of the same table.
    pub fn duplicate(&self) -> (table: TableDet)
        ensures
            table == *self,
    {
        TableDet {
            name: self.name.clone(),
            key_type: self.key_type.clone(),
            value_type: self.value_type.clone(),
            table_type: self.table_type,
        }
    }
}

/// A request to the engine: make sure that a table exists.
#[derive(Debug, PartialEq, Eq)]
pub struct CreateDb {
    pub name: String,
    pub flags: DatabaseFlags,
}

/// No two tables of the sequence share a name.
pub open spec fn names_distinct(tables: Seq<TableDet>) -> bool {
    forall|i: int, j: int|
        0 <= i < j < tables.len() ==> (#[trigger] tables[i]).name@ != (#[trigger] tables[j]).name@
}

/// Whether a table of the sequence is called `name`.
pub open spec fn has_table(tables: Seq<TableDet>, name: Seq<char>) -> bool {
    exists|i: int| 0 <= i < tables.len() && (#[trigger] tables[i]).name@ == name
}

/// The registry of a schema: its tables, in the order of their declaration.
/// A table is known by its position. No two tables share a name.
#[derive(Debug, PartialEq, Eq)]
pub struct TableSet {
    tables: Vec<TableDet>,
}

impl View for TableSet {
    type V = Seq<TableDet>;

    closed spec fn view(&self) -> Seq<TableDet> {
        self.tables@
    }
}

impl TableSet {
    /// What holds of every registry: its names are distinct.
    pub open spec fn wf(&self) -> bool {
        names_distinct(self@)
    }

    #[verifier::type_invariant]
    closed spec fn inv(&self) -> bool {
        names_distinct(self.tables@)
    }

    /// Whether the name at `at` occurs among the first `upto` tables.
    fn name_taken(tables: &Vec<TableDet>, at: usize, upto: usize) -> (taken: bool)
        requires
            upto <= at < tables@.len(),
        ensures
            taken == exists|i: int| 0 <= i < upto && (#[trigger] tables@[i]).name@ == tables@[at as int].name@,
    {
        let mut i: usize = 0;
        while i < upto
            invariant
                i <= upto <= at < tables@.len(),
                forall|k: int| 0 <= k < i ==> (#[trigger] tables@[k]).name@ != tables@[at as int].name@,
            decreases upto - i,
        {
            if tables[i].name == tables[at].name {
                return true;
            }
            i += 1;
        }
        false
    }

    /// The registry of the given tables; `None` exactly where two of them
    /// share a name.
    pub fn new(tables: Vec<TableDet>) -> (set: Option<TableSet>)
        ensures
            set.is_some() == names_distinct(tables@),
            set matches Some(s) ==> s@ == tables@ && s.wf(),
    {
        let mut at: usize = 0;
        while at < tables.len()
            invariant
                at <= tables@.len(),
                names_distinct(tables@.subrange(0, at as int)),
            decreases tables@.len() - at,
        {
            if Self::name_taken(&tables, at, at) {
                return None;
            }
            proof {
                let before = tables@.subrange(0, at as int);
                let now = tables@.subrange(0, at + 1);
                assert forall|i: int, j: int| 0 <= i < j < now.len() implies (#[trigger] now[i]).name@
                    != (#[trigger] now[j]).name@ by {
                    if j < at {
                        assert(before[i].name@ != before[j].name@);
                    }
                }
            }
            at += 1;
        }
        assert(tables@.subrange(0, at as int) =~= tables@);
        Some(TableSet { tables })
    }

    /// The number of tables.
    pub fn num_tables(&self) -> (n: usize)
        ensures
            n == self@.len(),
            self.wf(),
    {
        proof {
            use_type_invariant(self);
        }
        self.tables.len()
    }

    /// The table at a position.
    pub fn table(&self, at: usize) -> (table: &TableDet)
        requires
            at < self@.len(),
        ensures
            *table == self@[at as int],
    {
        &self.tables[at]
    }

    /// The name of the table at a position.
    pub fn name(&self, at: usize) -> (name: &String)
        requires
            at < self@.len(),
        ensures
            *name == self@[at as int].name,
    {
        &self.tables[at].name
    }

    /// The type of the table at a position.
    pub fn table_type(&self, at: usize) -> (t: TableType)
        requires
            at < self@.len(),
        ensures
            t == self@[at as int].table_type,
    {
        self.tables[at].table_type
    }

    /// The position of the table called `name`; `UnknownTable` exactly where
    /// the schema has no such table.
    pub fn from_str(&self, name: &str) -> (r: Result<usize, DatabaseError>)
        ensures
            self.wf(),
            match r {
                Ok(at) => at < self@.len() && self@[at as int].name@ == name@,
                Err(e) => e == DatabaseError::UnknownTable && !has_table(self@, name@),
            },
    {
        proof {
            use_type_invariant(self);
        }
        let wanted: String = name.to_owned();
        let mut at: usize = 0;
        while at < self.tables.len()
            invariant
                at <= self.tables@.len(),
                wanted@ == name@,
                names_distinct(self.tables@),
                forall|k: int| 0 <= k < at ==> (#[trigger] self.tables@[k]).name@ != name@,
            decreases self.tables@.len() - at,
        {
            if self.tables[at].name == wanted {
                return Ok(at);
            }
            at += 1;
        }
        Err(DatabaseError::UnknownTable)
    }

    /// The table called `name`, with keys of type `K` and values of type
    /// `V`. `UnknownTable` exactly where the schema has no such table,
    /// `TypeMismatch` exactly where it has one that is declared with another
    /// key or value type.
    pub fn bind<K: WrapEncodable, V: WrapEncodable>(&self, name: &str) -> (r: Result<
        Table<K, V>,
        DatabaseError,
    >)
        ensures
            self.wf(),
            match r {
                Ok(table) => {
                    &&& table.position() < self@.len()
                    &&& self@[table.position() as int].name@ == name@
                    &&& self@[table.position() as int].key_type@ == K::name()
                    &&& self@[table.position() as int].value_type@ == V::name()
                },
                Err(e) => if has_table(self@, name@) {
                    &&& e == DatabaseError::TypeMismatch
                    &&& exists|at: int|
                        0 <= at < self@.len() && (#[trigger] self@[at]).name@ == name@ && (
                        self@[at].key_type@ != K::name() || self@[at].value_type@ != V::name())
                } else {
                    e == DatabaseError::UnknownTable
                },
            },
    {
        let position = match self.from_str(name) {
            Ok(position) => position,
            Err(e) => {
                return Err(e);
            },
        };
        let declared = &self.tables[position];
        if declared.key_type == K::name_of_type() && declared.value_type == V::name_of_type() {
            Ok(Table { position, key: PhantomData, value: PhantomData })
        } else {
            Err(DatabaseError::TypeMismatch)
        }
    }

    /// The requests that make sure that every table exists: one for each
    /// table, in the order of the registry, each with the flags of its
    /// table's type. They belong to one write transaction.
    pub fn create_tables(&self, txn: &LibmdbxTx<'_, RW>) -> (requests: Vec<CreateDb>)
        ensures
            requests@.len() == self@.len(),
            forall|i: int|
                0 <= i < self@.len() ==> (#[trigger] requests@[i]).name@ == self@[i].name@
                    && requests@[i].flags == creation_flags(self@[i].table_type),
    {
        let mut requests: Vec<CreateDb> = Vec::new();
        let mut at: usize = 0;
        while at < self.tables.len()
            invariant
                at <= self.tables@.len(),
                requests@.len() == at,
                forall|i: int|
                    0 <= i < at ==> (#[trigger] requests@[i]).name@ == self.tables@[i].name@
                        && requests@[i].flags == creation_flags(self.tables@[i].table_type),
            decreases self.tables@.len() - at,
        {
            requests.push(txn.create_table(&self.tables[at]));
            at += 1;
        }
        requests
    }
}

/// A name belongs to at most one position of a registry.
pub proof fn lemma_position_unique(set: TableSet, i: int, j: int)
    requires
        set.wf(),
        0 <= i < set@.len(),
        0 <= j < set@.len(),
        set@[i].name@ == set@[j].name@,
    ensures
        i == j,
{
    if i < j {
        assert(set@[i].name@ != set@[j].name@);
    } else if j < i {
        assert(set@[j].name@ != set@[i].name@);
    }
}

} // verus!
