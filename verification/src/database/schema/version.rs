//! The `version` table, which records the schema version.

use vstd::prelude::*;
use crate::text::views;
use super::{DatabaseSchema, DatabaseType, SqlValue, TableDefinition, typed_views, definition_names};

verus! {

/// A row of the `version` table.
pub struct Version {
    version_number: i32,
}

impl DatabaseSchema for Version {
    open spec fn table_name() -> Seq<char> {
        "version"@
    }

    open spec fn column_names() -> Seq<Seq<char>> {
        seq!["version_number"@]
    }

    /// The first column, as for every table that names no keys of its own.
    open spec fn key_names() -> Seq<Seq<char>> {
        seq!["version_number"@]
    }

    /// The version number.
    closed spec fn row_values(&self) -> Seq<SqlValue> {
        seq![SqlValue::Int4(self.version_number)]
    }

    fn get_table_name() -> (r: String) {
        String::from_str("version")
    }

    fn get_keys() -> (r: Vec<String>) {
        let r = vec![String::from_str("version_number")];
        assert(views(r@) =~= Self::key_names());
        r
    }

    fn get_column_names() -> (r: Vec<String>) {
        let r = vec![String::from_str("version_number")];
        assert(views(r@) =~= Self::column_names());
        r
    }

    fn get_values(&self) -> (r: Vec<SqlValue>) {
        let r = vec![SqlValue::Int4(self.version_number)];
        assert(r@ =~= self.row_values());
        r
    }
}

impl TableDefinition for Version {
    open spec fn column_types() -> Seq<(Seq<char>, DatabaseType)> {
        seq![("version_number"@, DatabaseType::Required(Box::new(DatabaseType::I32)))]
    }

    proof fn lemma_definitions_name_columns() {
        assert(definition_names(Self::column_types()) =~= Self::column_names());
    }

    fn get_column_types() -> (r: Vec<(String, DatabaseType)>) {
        let r = vec![(String::from_str("version_number"), DatabaseType::I32.not_null())];
        assert(typed_views(r@) =~= Self::column_types());
        r
    }
}

} // verus!
