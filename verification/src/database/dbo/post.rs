//! Posts as the crawler writes them to the `posts` table.

use vstd::prelude::*;
use crate::api::lemmy::models::post::PostData;
use crate::database::schema::{DatabaseSchema, DatabaseType, SqlValue, TableDefinition, typed_views, definition_names, copy_optional_text};
use crate::text::views;

verus! {

impl DatabaseSchema for PostData {
    open spec fn table_name() -> Seq<char> {
        "posts"@
    }

    open spec fn column_names() -> Seq<Seq<char>> {
        seq![
            "ap_id"@,
            "url"@,
            "name"@,
            "body"@,
            "score"@,
            "author_actor_id"@,
            "community_ap_id"@,
        ]
    }

    /// The first column, as for every table that names no keys of its own.
    open spec fn key_names() -> Seq<Seq<char>> {
        seq!["ap_id"@]
    }

    open spec fn row_values(&self) -> Seq<SqlValue> {
        seq![
            SqlValue::Text(self.post.ap_id),
            SqlValue::OptionalText(self.post.url),
            SqlValue::Text(self.post.name),
            SqlValue::OptionalText(self.post.body),
            SqlValue::Int4(self.counts.score),
            SqlValue::Text(self.creator.actor_id),
            SqlValue::Text(self.community.actor_id),
        ]
    }

    fn get_table_name() -> (r: String) {
        String::from_str("posts")
    }

    fn get_keys() -> (r: Vec<String>) {
        let r = vec![String::from_str("ap_id")];
        assert(views(r@) =~= Self::key_names());
        r
    }

    fn get_column_names() -> (r: Vec<String>) {
        let r = vec![
            String::from_str("ap_id"),
            String::from_str("url"),
            String::from_str("name"),
            String::from_str("body"),
            String::from_str("score"),
            String::from_str("author_actor_id"),
            String::from_str("community_ap_id"),
        ];
        assert(views(r@) =~= Self::column_names());
        r
    }

    fn get_values(&self) -> (r: Vec<SqlValue>) {
        let r = vec![
            SqlValue::Text(self.post.ap_id.clone()),
            SqlValue::OptionalText(copy_optional_text(&self.post.url)),
            SqlValue::Text(self.post.name.clone()),
            SqlValue::OptionalText(copy_optional_text(&self.post.body)),
            SqlValue::Int4(self.counts.score),
            SqlValue::Text(self.creator.actor_id.clone()),
            SqlValue::Text(self.community.actor_id.clone()),
        ];
        assert(r@ =~= self.row_values());
        r
    }
}

/// Each value of a `posts` row written for a crawled post is the field that
/// its column names: the post's own fields, its score, its author's actor id
/// under `author_actor_id` and its community's actor id under `community_ap_id`.
pub proof fn law_post_data_row(p: PostData)
    ensures
        PostData::column_names().len() == 7,
        p.row_values().len() == 7,
        PostData::column_names()[0] == "ap_id"@ && p.row_values()[0] == SqlValue::Text(p.post.ap_id),
        PostData::column_names()[1] == "url"@ && p.row_values()[1] == SqlValue::OptionalText(p.post.url),
        PostData::column_names()[2] == "name"@ && p.row_values()[2] == SqlValue::Text(p.post.name),
        PostData::column_names()[3] == "body"@ && p.row_values()[3] == SqlValue::OptionalText(p.post.body),
        PostData::column_names()[4] == "score"@ && p.row_values()[4] == SqlValue::Int4(p.counts.score),
        PostData::column_names()[5] == "author_actor_id"@ && p.row_values()[5] == SqlValue::Text(p.creator.actor_id),
        PostData::column_names()[6] == "community_ap_id"@ && p.row_values()[6] == SqlValue::Text(p.community.actor_id),
{
}

impl TableDefinition for PostData {
    open spec fn column_types() -> Seq<(Seq<char>, DatabaseType)> {
        seq![
            ("ap_id"@, DatabaseType::Required(Box::new(DatabaseType::String(0)))),
            ("url"@, DatabaseType::Optional(Box::new(DatabaseType::String(0)))),
            ("name"@, DatabaseType::Required(Box::new(DatabaseType::String(0)))),
            ("body"@, DatabaseType::Optional(Box::new(DatabaseType::String(0)))),
            ("score"@, DatabaseType::I32),
            ("author_actor_id"@, DatabaseType::Required(Box::new(DatabaseType::String(0)))),
            ("community_ap_id"@, DatabaseType::Required(Box::new(DatabaseType::String(0)))),
        ]
    }

    proof fn lemma_definitions_name_columns() {
        assert(definition_names(Self::column_types()) =~= Self::column_names());
    }

    fn get_column_types() -> (r: Vec<(String, DatabaseType)>) {
        let r = vec![
            (String::from_str("ap_id"), DatabaseType::String(0).not_null()),
            (String::from_str("url"), DatabaseType::String(0).nullable()),
            (String::from_str("name"), DatabaseType::String(0).not_null()),
            (String::from_str("body"), DatabaseType::String(0).nullable()),
            (String::from_str("score"), DatabaseType::I32),
            (String::from_str("author_actor_id"), DatabaseType::String(0).not_null()),
            (String::from_str("community_ap_id"), DatabaseType::String(0).not_null()),
        ];
        assert(typed_views(r@) =~= Self::column_types());
        r
    }
}

} // verus!
