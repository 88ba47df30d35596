//! The `authors` table.

use vstd::prelude::*;
use crate::api::lemmy::models::author::Author;
use crate::text::views;
use super::{DatabaseSchema, DatabaseType, SqlValue, TableDefinition, typed_views, definition_names, copy_optional_text};

verus! {

impl DatabaseSchema for Author {
    open spec fn table_name() -> Seq<char> {
        "authors"@
    }

    open spec fn column_names() -> Seq<Seq<char>> {
        seq!["ap_id"@, "avatar"@, "name"@, "display_name"@]
    }

    open spec fn key_names() -> Seq<Seq<char>> {
        seq!["ap_id"@]
    }

    open spec fn row_values(&self) -> Seq<SqlValue> {
        seq![
            SqlValue::Text(self.actor_id),
            SqlValue::OptionalText(self.avatar),
            SqlValue::Text(self.name),
            SqlValue::OptionalText(self.display_name),
        ]
    }

    fn get_table_name() -> (r: String) {
        String::from_str("authors")
    }

    fn get_keys() -> (r: Vec<String>) {
        let r = vec![String::from_str("ap_id")];
        assert(views(r@) =~= Self::key_names());
        r
    }

    fn get_column_names() -> (r: Vec<String>) {
        let r = vec![
            String::from_str("ap_id"),
            String::from_str("avatar"),
            String::from_str("name"),
            String::from_str("display_name"),
        ];
        assert(views(r@) =~= Self::column_names());
        r
    }

    fn get_values(&self) -> (r: Vec<SqlValue>) {
        let r = vec![
            SqlValue::Text(self.actor_id.clone()),
            SqlValue::OptionalText(copy_optional_text(&self.avatar)),
            SqlValue::Text(self.name.clone()),
            SqlValue::OptionalText(copy_optional_text(&self.display_name)),
        ];
        assert(r@ =~= self.row_values());
        r
    }
}

/// Each value of an `authors` row is the field that its column names.
pub proof fn law_author_row(a: Author)
    ensures
        Author::column_names().len() == 4,
        a.row_values().len() == 4,
        Author::column_names()[0] == "ap_id"@ && a.row_values()[0] == SqlValue::Text(a.actor_id),
        Author::column_names()[1] == "avatar"@ && a.row_values()[1] == SqlValue::OptionalText(a.avatar),
        Author::column_names()[2] == "name"@ && a.row_values()[2] == SqlValue::Text(a.name),
        Author::column_names()[3] == "display_name"@ && a.row_values()[3] == SqlValue::OptionalText(a.display_name),
{
}

impl TableDefinition for Author {
    open spec fn column_types() -> Seq<(Seq<char>, DatabaseType)> {
        seq![
            ("ap_id"@, DatabaseType::Required(Box::new(DatabaseType::String(0)))),
            ("avatar"@, DatabaseType::Optional(Box::new(DatabaseType::String(0)))),
            ("name"@, DatabaseType::Required(Box::new(DatabaseType::String(0)))),
            ("display_name"@, DatabaseType::Optional(Box::new(DatabaseType::String(0)))),
        ]
    }

    proof fn lemma_definitions_name_columns() {
        assert(definition_names(Self::column_types()) =~= Self::column_names());
    }

    fn get_column_types() -> (r: Vec<(String, DatabaseType)>) {
        let r = vec![
            (String::from_str("ap_id"), DatabaseType::String(0).not_null()),
            (String::from_str("avatar"), DatabaseType::String(0).nullable()),
            (String::from_str("name"), DatabaseType::String(0).not_null()),
            (String::from_str("display_name"), DatabaseType::String(0).nullable()),
        ];
        assert(typed_views(r@) =~= Self::column_types());
        r
    }
}

} // verus!
