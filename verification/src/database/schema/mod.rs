//! Column types, column values, and the traits that describe a table.

pub mod author;
pub mod community;
pub mod id;
pub mod posts;
pub mod site;
pub mod version;
pub mod word;
pub mod xref;

use vstd::prelude::*;
use crate::text::{decimal, views, usize_to_decimal};

verus! {

/// The SQL type of a column.
pub enum DatabaseType {
    Bool,
    I8,
    I16,
    I32,
    I64,
    /// A character column; a positive length gives `VARCHAR(n)`.
    String(i16),
    Uuid,
    /// A time with time zone.
    DateTime,
    Optional(Box<DatabaseType>),
    Required(Box<DatabaseType>),
    /// The inner type, with no two rows holding the same value.
    Unique(Box<DatabaseType>),
}

impl DatabaseType {
    /// The SQL text of the type.
    pub open spec fn sql_name(&self) -> Seq<char>
        decreases self,
    {
        match self {
            DatabaseType::Bool => "BOOL"@,
            DatabaseType::I8 => "CHAR"@,
            DatabaseType::I16 => "INT2"@,
            DatabaseType::I32 => "INT4"@,
            DatabaseType::I64 => "INT8"@,
            DatabaseType::String(n) => {
                if *n > 0 {
                    "VARCHAR("@ + decimal(*n as nat) + ")"@
                } else {
                    "VARCHAR"@
                }
            },
            DatabaseType::Uuid => "UUID"@,
            DatabaseType::DateTime => "TIMESTAMP WITH TIME ZONE"@,
            DatabaseType::Optional(t) => t.sql_name() + " NULL"@,
            DatabaseType::Required(t) => t.sql_name() + " NOT NULL"@,
            DatabaseType::Unique(t) => t.sql_name() + " UNIQUE"@,
        }
    }

    /// Whether a column of this type may hold NULL: a type declared
    /// `NOT NULL` may not, a type declared `NULL` may, a unique type as its
    /// inner type does, and a bare type may (as SQL has it).
    pub open spec fn allows_null(&self) -> bool
        decreases self,
    {
        match self {
            DatabaseType::Optional(_) => true,
            DatabaseType::Required(_) => false,
            DatabaseType::Unique(t) => t.allows_null(),
            _ => true,
        }
    }

    /// Whether `v` is the value that fills existing rows when a column of
    /// this type is added: false, zero, the empty text, the nil UUID, or the
    /// Unix epoch; a declared type takes the default of its inner type.
    pub open spec fn is_default_value(&self, v: SqlValue) -> bool
        decreases self,
    {
        match self {
            DatabaseType::Bool => v == SqlValue::Bool(false),
            DatabaseType::I8 => v == SqlValue::Char(0),
            DatabaseType::I16 => v == SqlValue::Int2(0),
            DatabaseType::I32 => v == SqlValue::Int4(0),
            DatabaseType::I64 => v == SqlValue::Int8(0),
            DatabaseType::String(_) => v matches SqlValue::Text(s) && s@.len() == 0,
            DatabaseType::Uuid => v == SqlValue::Uuid(0),
            DatabaseType::DateTime => v == SqlValue::Timestamp(0),
            DatabaseType::Optional(t) => t.is_default_value(v),
            DatabaseType::Required(t) => t.is_default_value(v),
            DatabaseType::Unique(t) => t.is_default_value(v),
        }
    }

    /// Whether a column of this type may hold NULL.
    pub fn is_nullable(&self) -> (r: bool)
        ensures
            r == self.allows_null(),
        decreases self,
    {
        match self {
            DatabaseType::Optional(_) => true,
            DatabaseType::Required(_) => false,
            DatabaseType::Unique(t) => t.is_nullable(),
            _ => true,
        }
    }

    /// The value that fills existing rows when a column of this type is added.
    pub fn get_default_value(&self) -> (r: SqlValue)
        ensures
            self.is_default_value(r),
        decreases self,
    {
        match self {
            DatabaseType::Bool => SqlValue::Bool(false),
            DatabaseType::I8 => SqlValue::Char(0),
            DatabaseType::I16 => SqlValue::Int2(0),
            DatabaseType::I32 => SqlValue::Int4(0),
            DatabaseType::I64 => SqlValue::Int8(0),
            DatabaseType::String(_) => SqlValue::Text(String::new()),
            DatabaseType::Uuid => SqlValue::Uuid(0),
            DatabaseType::DateTime => SqlValue::Timestamp(0),
            DatabaseType::Optional(t) => t.get_default_value(),
            DatabaseType::Required(t) => t.get_default_value(),
            DatabaseType::Unique(t) => t.get_default_value(),
        }
    }

    /// Renders the type as SQL text.
    pub fn to_sql_type_name(&self) -> (r: String)
        ensures
            r@ == self.sql_name(),
        decreases self,
    {
        match self {
            DatabaseType::Bool => String::from_str("BOOL"),
            DatabaseType::I8 => String::from_str("CHAR"),
            DatabaseType::I16 => String::from_str("INT2"),
            DatabaseType::I32 => String::from_str("INT4"),
            DatabaseType::I64 => String::from_str("INT8"),
            DatabaseType::String(n) => {
                if *n > 0 {
                    let mut s = String::from_str("VARCHAR(");
                    let len: usize = *n as usize;
                    let digits = usize_to_decimal(len);
                    s.append(digits.as_str());
                    s.append(")");
                    s
                } else {
                    String::from_str("VARCHAR")
                }
            },
            DatabaseType::Uuid => String::from_str("UUID"),
            DatabaseType::DateTime => String::from_str("TIMESTAMP WITH TIME ZONE"),
            DatabaseType::Unique(t) => {
                let mut s = t.to_sql_type_name();
                s.append(" UNIQUE");
                s
            },
            DatabaseType::Optional(t) => {
                let mut s = t.to_sql_type_name();
                s.append(" NULL");
                s
            },
            DatabaseType::Required(t) => {
                let mut s = t.to_sql_type_name();
                s.append(" NOT NULL");
                s
            },
        }
    }

    /// The same type, declared `NOT NULL`.
    pub fn not_null(self) -> (r: DatabaseType)
        ensures
            r == DatabaseType::Required(Box::new(self)),
    {
        DatabaseType::Required(Box::new(self))
    }

    /// The same type, with no two rows holding the same value.
    pub fn unique(self) -> (r: DatabaseType)
        ensures
            r == DatabaseType::Unique(Box::new(self)),
    {
        DatabaseType::Unique(Box::new(self))
    }

    /// The same type, declared `NULL`.
    pub fn nullable(self) -> (r: DatabaseType)
        ensures
            r == DatabaseType::Optional(Box::new(self)),
    {
        DatabaseType::Optional(Box::new(self))
    }
}

/// Marking a type `NOT NULL` appends ` NOT NULL` to its SQL text.
pub proof fn law_not_null_appends(t: DatabaseType)
    ensures
        DatabaseType::Required(Box::new(t)).sql_name() == t.sql_name() + " NOT NULL"@,
{
}

/// Marking a type nullable appends ` NULL` to its SQL text.
pub proof fn law_nullable_appends(t: DatabaseType)
    ensures
        DatabaseType::Optional(Box::new(t)).sql_name() == t.sql_name() + " NULL"@,
{
}

/// A value bound to a positional parameter of a statement.
pub enum SqlValue {
    Text(String),
    OptionalText(Option<String>),
    /// A one-byte `CHAR`.
    Char(i8),
    Int2(i16),
    Int4(i32),
    Int8(i64),
    Bool(bool),
    /// A UUID, as its 128-bit value.
    Uuid(u128),
    /// A time with time zone, as microseconds since the Unix epoch.
    Timestamp(i64),
}

/// A copy of an optional string.
pub fn copy_optional_text(o: &Option<String>) -> (r: Option<String>)
    ensures
        r == *o,
{
    match o {
        Some(s) => Some(s.clone()),
        None => None,
    }
}

/// A table whose rows are values of the implementing type.
pub trait DatabaseSchema: Sized {
    /// The table's name.
    spec fn table_name() -> Seq<char>;

    /// The table's columns, in the order in which a row's values come.
    spec fn column_names() -> Seq<Seq<char>>;

    /// The columns that identify a row.
    spec fn key_names() -> Seq<Seq<char>>;

    /// The values of a row, one for each column.
    spec fn row_values(&self) -> Seq<SqlValue>;

    fn get_table_name() -> (r: String)
        ensures
            r@ == Self::table_name();

    fn get_keys() -> (r: Vec<String>)
        ensures
            views(r@) == Self::key_names();

    fn get_column_names() -> (r: Vec<String>)
        ensures
            views(r@) == Self::column_names();

    fn get_values(&self) -> (r: Vec<SqlValue>)
        ensures
            r@ == self.row_values();
}

/// The name and type of each column, as a table definition lists them.
pub open spec fn typed_views(v: Seq<(String, DatabaseType)>) -> Seq<(Seq<char>, DatabaseType)> {
    v.map_values(|p: (String, DatabaseType)| (p.0@, p.1))
}

/// The type given to `name` by a list of column definitions: that of the
/// first entry with that name.
pub open spec fn type_of(types: Seq<(Seq<char>, DatabaseType)>, name: Seq<char>) -> Option<DatabaseType>
    decreases types.len(),
{
    if types.len() == 0 {
        None
    } else if types[0].0 == name {
        Some(types[0].1)
    } else {
        type_of(types.drop_first(), name)
    }
}

/// The names of a list of column definitions.
pub open spec fn definition_names(types: Seq<(Seq<char>, DatabaseType)>) -> Seq<Seq<char>> {
    types.map_values(|t: (Seq<char>, DatabaseType)| t.0)
}

/// A table whose column types are known, so that it can be created.
pub trait TableDefinition: DatabaseSchema {
    /// The SQL type of each column, by name.
    spec fn column_types() -> Seq<(Seq<char>, DatabaseType)>;

    /// The definitions name the table's columns, in column order.
    proof fn lemma_definitions_name_columns()
        ensures
            definition_names(Self::column_types()) == Self::column_names();

    fn get_column_types() -> (r: Vec<(String, DatabaseType)>)
        ensures
            typed_views(r@) == Self::column_types();
}

/// The values of all rows, row after row.
pub open spec fn all_row_values<T: DatabaseSchema>(rows: Seq<T>) -> Seq<SqlValue>
    decreases rows.len(),
{
    if rows.len() == 0 {
        Seq::empty()
    } else {
        all_row_values(rows.drop_last()) + rows.last().row_values()
    }
}

impl<T: DatabaseSchema> DatabaseSchema for Vec<T> {
    open spec fn table_name() -> Seq<char> {
        T::table_name()
    }

    open spec fn column_names() -> Seq<Seq<char>> {
        T::column_names()
    }

    open spec fn key_names() -> Seq<Seq<char>> {
        T::key_names()
    }

    open spec fn row_values(&self) -> Seq<SqlValue> {
        all_row_values(self@)
    }

    fn get_table_name() -> (r: String) {
        T::get_table_name()
    }

    fn get_keys() -> (r: Vec<String>) {
        T::get_keys()
    }

    fn get_column_names() -> (r: Vec<String>) {
        T::get_column_names()
    }

    fn get_values(&self) -> (r: Vec<SqlValue>) {
        let mut res: Vec<SqlValue> = Vec::new();
        let n = self.len();
        let mut i: usize = 0;
        while i < n
            invariant
                n == self@.len(),
                i <= n,
                res@ == all_row_values(self@.take(i as int)),
            decreases n - i,
        {
            let mut v = self[i].get_values();
            res.append(&mut v);
            assert(self@.take(i + 1).drop_last() =~= self@.take(i as int));
            i = i + 1;
        }
        assert(self@.take(n as int) =~= self@);
        res
    }
}

impl<T: TableDefinition> TableDefinition for Vec<T> {
    open spec fn column_types() -> Seq<(Seq<char>, DatabaseType)> {
        T::column_types()
    }

    proof fn lemma_definitions_name_columns() {
        T::lemma_definitions_name_columns();
    }

    fn get_column_types() -> (r: Vec<(String, DatabaseType)>) {
        T::get_column_types()
    }
}

} // verus!
