//! The `lemmy_ids` table: under which id each instance knows a post.

use vstd::prelude::*;
use crate::api::lemmy::models::id::LemmyId;
use crate::text::views;
use super::{DatabaseSchema, DatabaseType, SqlValue, TableDefinition, typed_views, definition_names};

verus! {

/// The text of the query that finds the id under which an instance knows a
/// post; `$1` is the post's actor id and `$2` the instance's.
pub open spec fn find_query_text() -> Seq<char> {
    "\n                SELECT post_remote_id FROM "@ + "lemmy_ids"@
        + "\n                    WHERE post_actor_id = $1\n                        AND instance_actor_id = $2\n            "@
}

impl LemmyId {
    /// The query that finds the id under which an instance knows a post.
    pub fn find_query() -> (r: String)
        ensures
            r@ == find_query_text(),
    {
        let mut q = String::from_str("\n                SELECT post_remote_id FROM ");
        let table = <LemmyId as DatabaseSchema>::get_table_name();
        q.append(table.as_str());
        q.append("\n                    WHERE post_actor_id = $1\n                        AND instance_actor_id = $2\n            ");
        q
    }
}

impl DatabaseSchema for LemmyId {
    open spec fn table_name() -> Seq<char> {
        "lemmy_ids"@
    }

    open spec fn column_names() -> Seq<Seq<char>> {
        seq!["post_remote_id"@, "post_actor_id"@, "instance_actor_id"@]
    }

    open spec fn key_names() -> Seq<Seq<char>> {
        seq!["post_actor_id"@, "instance_actor_id"@]
    }

    open spec fn row_values(&self) -> Seq<SqlValue> {
        seq![
            SqlValue::Int8(self.post_remote_id),
            SqlValue::Text(self.post_actor_id),
            SqlValue::Text(self.instance_actor_id),
        ]
    }

    fn get_table_name() -> (r: String) {
        String::from_str("lemmy_ids")
    }

    fn get_keys() -> (r: Vec<String>) {
        let r = vec![String::from_str("post_actor_id"), String::from_str("instance_actor_id")];
        assert(views(r@) =~= Self::key_names());
        r
    }

    fn get_column_names() -> (r: Vec<String>) {
        let r = vec![
            String::from_str("post_remote_id"),
            String::from_str("post_actor_id"),
            String::from_str("instance_actor_id"),
        ];
        assert(views(r@) =~= Self::column_names());
        r
    }

    fn get_values(&self) -> (r: Vec<SqlValue>) {
        let r = vec![
            SqlValue::Int8(self.post_remote_id),
            SqlValue::Text(self.post_actor_id.clone()),
            SqlValue::Text(self.instance_actor_id.clone()),
        ];
        assert(r@ =~= self.row_values());
        r
    }
}

/// Each value of a `lemmy_ids` row is the field that its column names.
pub proof fn law_lemmy_id_row(l: LemmyId)
    ensures
        LemmyId::column_names().len() == 3,
        l.row_values().len() == 3,
        LemmyId::column_names()[0] == "post_remote_id"@ && l.row_values()[0] == SqlValue::Int8(l.post_remote_id),
        LemmyId::column_names()[1] == "post_actor_id"@ && l.row_values()[1] == SqlValue::Text(l.post_actor_id),
        LemmyId::column_names()[2] == "instance_actor_id"@ && l.row_values()[2] == SqlValue::Text(l.instance_actor_id),
{
}

impl TableDefinition for LemmyId {
    open spec fn column_types() -> Seq<(Seq<char>, DatabaseType)> {
        seq![
            ("post_remote_id"@, DatabaseType::Required(Box::new(DatabaseType::I64))),
            ("post_actor_id"@, DatabaseType::Required(Box::new(DatabaseType::String(0)))),
            ("instance_actor_id"@, DatabaseType::Required(Box::new(DatabaseType::String(0)))),
        ]
    }

    proof fn lemma_definitions_name_columns() {
        assert(definition_names(Self::column_types()) =~= Self::column_names());
    }

    fn get_column_types() -> (r: Vec<(String, DatabaseType)>) {
        let r = vec![
            (String::from_str("post_remote_id"), DatabaseType::I64.not_null()),
            (String::from_str("post_actor_id"), DatabaseType::String(0).not_null()),
            (String::from_str("instance_actor_id"), DatabaseType::String(0).not_null()),
        ];
        assert(typed_views(r@) =~= Self::column_types());
        r
    }
}

} // verus!
