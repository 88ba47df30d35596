//! The `xref` table, which links words to the posts that hold them.

use vstd::prelude::*;
use crate::identity::RowIdentity;
use crate::text::views;
use super::{DatabaseSchema, DatabaseType, SqlValue, TableDefinition, typed_views, definition_names};

verus! {

/// A link from a word to a post that holds it.
pub struct Search {
    /// The word's UUID, as its 128-bit value.
    pub word_id: u128,
    pub post_ap_id: String,
}

impl RowIdentity for Search {
    type Key = (u128, Seq<char>);

    /// Links are told apart by both their word and their post.
    open spec fn identity(&self) -> (u128, Seq<char>) {
        (self.word_id, self.post_ap_id@)
    }

    fn same_identity(&self, other: &Self) -> (r: bool) {
        self.word_id == other.word_id && self.post_ap_id == other.post_ap_id
    }
}

/// Two links are the same row exactly when both their word ids and their
/// post ids are equal.
pub proof fn law_search_identity(a: Search, b: Search)
    ensures
        a.identity() == b.identity() <==> (a.word_id == b.word_id && a.post_ap_id@ == b.post_ap_id@),
{
}

impl DatabaseSchema for Search {
    open spec fn table_name() -> Seq<char> {
        "xref"@
    }

    open spec fn column_names() -> Seq<Seq<char>> {
        seq!["word_id"@, "post_ap_id"@]
    }

    /// Every column is part of the key.
    open spec fn key_names() -> Seq<Seq<char>> {
        Self::column_names()
    }

    open spec fn row_values(&self) -> Seq<SqlValue> {
        seq![SqlValue::Uuid(self.word_id), SqlValue::Text(self.post_ap_id)]
    }

    fn get_table_name() -> (r: String) {
        String::from_str("xref")
    }

    fn get_keys() -> (r: Vec<String>) {
        Self::get_column_names()
    }

    fn get_column_names() -> (r: Vec<String>) {
        let r = vec![String::from_str("word_id"), String::from_str("post_ap_id")];
        assert(views(r@) =~= Self::column_names());
        r
    }

    fn get_values(&self) -> (r: Vec<SqlValue>) {
        let r = vec![SqlValue::Uuid(self.word_id), SqlValue::Text(self.post_ap_id.clone())];
        assert(r@ =~= self.row_values());
        r
    }
}

/// Each value of an `xref` row is the field that its column names.
pub proof fn law_search_row(s: Search)
    ensures
        Search::column_names().len() == 2,
        s.row_values().len() == 2,
        Search::column_names()[0] == "word_id"@ && s.row_values()[0] == SqlValue::Uuid(s.word_id),
        Search::column_names()[1] == "post_ap_id"@ && s.row_values()[1] == SqlValue::Text(s.post_ap_id),
{
}

impl TableDefinition for Search {
    open spec fn column_types() -> Seq<(Seq<char>, DatabaseType)> {
        seq![
            ("word_id"@, DatabaseType::Required(Box::new(DatabaseType::Uuid))),
            ("post_ap_id"@, DatabaseType::Required(Box::new(DatabaseType::String(0)))),
        ]
    }

    proof fn lemma_definitions_name_columns() {
        assert(definition_names(Self::column_types()) =~= Self::column_names());
    }

    fn get_column_types() -> (r: Vec<(String, DatabaseType)>) {
        let r = vec![
            (String::from_str("word_id"), DatabaseType::Uuid.not_null()),
            (String::from_str("post_ap_id"), DatabaseType::String(0).not_null()),
        ];
        assert(typed_views(r@) =~= Self::column_types());
        r
    }
}

} // verus!
