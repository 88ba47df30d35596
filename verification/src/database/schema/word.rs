//! The `words` table.

use vstd::prelude::*;
use crate::identity::RowIdentity;
use crate::sources::{new_uuid_v4, uuid_version, uuid_variant_bits};
use crate::text::views;
use super::{DatabaseSchema, DatabaseType, SqlValue, TableDefinition, typed_views, definition_names};

verus! {

/// A word of the index under its id.
pub struct Word {
    /// A UUID, as its 128-bit value.
    pub id: u128,
    pub word: String,
}

impl Word {
    /// A word under a fresh random id.
    pub fn from(word: String) -> (r: Word)
        ensures
            r.word == word,
            uuid_version(r.id) == 4,
            uuid_variant_bits(r.id) == 2,
    {
        Word { id: new_uuid_v4(), word }
    }
}

impl RowIdentity for Word {
    type Key = Seq<Seq<char>>;

    /// Words are told apart by their text; the id is not compared.
    open spec fn identity(&self) -> Seq<Seq<char>> {
        seq![self.word@]
    }

    fn same_identity(&self, other: &Self) -> (r: bool) {
        let r = self.word == other.word;
        assert(r ==> self.identity() =~= other.identity());
        assert(self.identity() == other.identity() ==> self.identity()[0] == other.identity()[0]);
        r
    }
}

/// Two words are the same row exactly when their texts are equal; the id plays
/// no part.
pub proof fn law_word_identity(a: Word, b: Word)
    ensures
        a.identity() == b.identity() <==> a.word@ == b.word@,
{
    if a.identity() == b.identity() {
        assert(a.identity()[0] == b.identity()[0]);
    }
    if a.word@ == b.word@ {
        assert(a.identity() =~= b.identity());
    }
}

impl DatabaseSchema for Word {
    open spec fn table_name() -> Seq<char> {
        "words"@
    }

    open spec fn column_names() -> Seq<Seq<char>> {
        seq!["id"@, "word"@]
    }

    /// Every column is part of the key.
    open spec fn key_names() -> Seq<Seq<char>> {
        Self::column_names()
    }

    open spec fn row_values(&self) -> Seq<SqlValue> {
        seq![SqlValue::Uuid(self.id), SqlValue::Text(self.word)]
    }

    fn get_table_name() -> (r: String) {
        String::from_str("words")
    }

    fn get_keys() -> (r: Vec<String>) {
        Self::get_column_names()
    }

    fn get_column_names() -> (r: Vec<String>) {
        let r = vec![String::from_str("id"), String::from_str("word")];
        assert(views(r@) =~= Self::column_names());
        r
    }

    fn get_values(&self) -> (r: Vec<SqlValue>) {
        let r = vec![SqlValue::Uuid(self.id), SqlValue::Text(self.word.clone())];
        assert(r@ =~= self.row_values());
        r
    }
}

/// Each value of a `words` row is the field that its column names.
pub proof fn law_word_row(w: Word)
    ensures
        Word::column_names().len() == 2,
        w.row_values().len() == 2,
        Word::column_names()[0] == "id"@ && w.row_values()[0] == SqlValue::Uuid(w.id),
        Word::column_names()[1] == "word"@ && w.row_values()[1] == SqlValue::Text(w.word),
{
}

impl TableDefinition for Word {
    open spec fn column_types() -> Seq<(Seq<char>, DatabaseType)> {
        seq![
            ("id"@, DatabaseType::Required(Box::new(DatabaseType::Uuid))),
            ("word"@, DatabaseType::Required(Box::new(DatabaseType::String(0)))),
        ]
    }

    proof fn lemma_definitions_name_columns() {
        assert(definition_names(Self::column_types()) =~= Self::column_names());
    }

    fn get_column_types() -> (r: Vec<(String, DatabaseType)>) {
        let r = vec![
            (String::from_str("id"), DatabaseType::Uuid.not_null()),
            (String::from_str("word"), DatabaseType::String(0).not_null()),
        ];
        assert(typed_views(r@) =~= Self::column_types());
        r
    }
}

} // verus!
