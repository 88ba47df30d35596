//! Communities as the crawler writes them to the `communities` table.

use vstd::prelude::*;
use crate::api::lemmy::models::community::Community;
use crate::database::schema::{DatabaseSchema, SqlValue, copy_optional_text};
use crate::text::views;

verus! {

impl DatabaseSchema for Community {
    open spec fn table_name() -> Seq<char> {
        "communities"@
    }

    open spec fn column_names() -> Seq<Seq<char>> {
        seq!["ap_id"@, "icon"@, "name"@, "title"@]
    }

    /// The first column, as for every table that names no keys of its own.
    open spec fn key_names() -> Seq<Seq<char>> {
        seq!["ap_id"@]
    }

    open spec fn row_values(&self) -> Seq<SqlValue> {
        seq![
            SqlValue::Text(self.actor_id),
            SqlValue::OptionalText(self.icon),
            SqlValue::Text(self.name),
            SqlValue::OptionalText(self.title),
        ]
    }

    fn get_table_name() -> (r: String) {
        String::from_str("communities")
    }

    fn get_keys() -> (r: Vec<String>) {
        let r = vec![String::from_str("ap_id")];
        assert(views(r@) =~= Self::key_names());
        r
    }

    fn get_column_names() -> (r: Vec<String>) {
        let r = vec![
            String::from_str("ap_id"),
            String::from_str("icon"),
            String::from_str("name"),
            String::from_str("title"),
        ];
        assert(views(r@) =~= Self::column_names());
        r
    }

    fn get_values(&self) -> (r: Vec<SqlValue>) {
        let r = vec![
            SqlValue::Text(self.actor_id.clone()),
            SqlValue::OptionalText(copy_optional_text(&self.icon)),
            SqlValue::Text(self.name.clone()),
            SqlValue::OptionalText(copy_optional_text(&self.title)),
        ];
        assert(r@ =~= self.row_values());
        r
    }
}

/// Each value of a `communities` row written for a crawled community is the
/// field that its column names.
pub proof fn law_community_data_row(c: Community)
    ensures
        Community::column_names().len() == 4,
        c.row_values().len() == 4,
        Community::column_names()[0] == "ap_id"@ && c.row_values()[0] == SqlValue::Text(c.actor_id),
        Community::column_names()[1] == "icon"@ && c.row_values()[1] == SqlValue::OptionalText(c.icon),
        Community::column_names()[2] == "name"@ && c.row_values()[2] == SqlValue::Text(c.name),
        Community::column_names()[3] == "title"@ && c.row_values()[3] == SqlValue::OptionalText(c.title),
{
}

} // verus!
