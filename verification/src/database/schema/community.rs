//! The `communities` table.

use vstd::prelude::*;
use crate::api::lemmy::models::community::Community as LemmyCommunity;
use crate::identity::RowIdentity;
use crate::text::views;
use super::{DatabaseSchema, DatabaseType, SqlValue, TableDefinition, typed_views, definition_names, copy_optional_text};

verus! {

/// A row of the `communities` table.
pub struct Community {
    pub actor_id: String,
    pub icon: Option<String>,
    pub name: String,
    pub title: Option<String>,
}

impl Community {
    /// A field-for-field copy.
    pub fn duplicate(&self) -> (r: Community)
        ensures
            r == *self,
    {
        Community {
            actor_id: self.actor_id.clone(),
            icon: copy_optional_text(&self.icon),
            name: self.name.clone(),
            title: copy_optional_text(&self.title),
        }
    }
}

impl<'a> From<&'a LemmyCommunity> for Community {
    fn from(value: &'a LemmyCommunity) -> (r: Self) {
        Community {
            actor_id: value.actor_id.clone(),
            icon: copy_optional_text(&value.icon),
            name: value.name.clone(),
            title: copy_optional_text(&value.title),
        }
    }
}

impl<'a> vstd::std_specs::convert::FromSpecImpl<&'a LemmyCommunity> for Community {
    open spec fn obeys_from_spec() -> bool {
        true
    }

    /// The community's fields, copied one for one.
    open spec fn from_spec(value: &'a LemmyCommunity) -> Self {
        Community {
            actor_id: value.actor_id,
            icon: value.icon,
            name: value.name,
            title: value.title,
        }
    }
}

impl RowIdentity for Community {
    type Key = Seq<Seq<char>>;

    /// Communities are told apart by their actor id.
    open spec fn identity(&self) -> Seq<Seq<char>> {
        seq![self.actor_id@]
    }

    fn same_identity(&self, other: &Self) -> (r: bool) {
        let r = self.actor_id == other.actor_id;
        assert(r ==> self.identity() =~= other.identity());
        assert(self.identity() == other.identity() ==> self.identity()[0] == other.identity()[0]);
        r
    }
}

/// Two community rows are the same row exactly when their actor ids are
/// equal.
pub proof fn law_community_row_identity(a: Community, b: Community)
    ensures
        a.identity() == b.identity() <==> a.actor_id@ == b.actor_id@,
{
    if a.identity() == b.identity() {
        assert(a.identity()[0] == b.identity()[0]);
    }
    if a.actor_id@ == b.actor_id@ {
        assert(a.identity() =~= b.identity());
    }
}

impl DatabaseSchema for Community {
    open spec fn table_name() -> Seq<char> {
        "communities"@
    }

    open spec fn column_names() -> Seq<Seq<char>> {
        seq!["ap_id"@, "icon"@, "name"@, "title"@]
    }

    /// The first column, as for every table that names no keys of its own.
    open spec fn key_names() -> Seq<Seq<char>> {
        seq!["ap_id"@]
    }

    open spec fn row_values(&self) -> Seq<SqlValue> {
        seq![
            SqlValue::Text(self.actor_id),
            SqlValue::OptionalText(self.icon),
            SqlValue::Text(self.name),
            SqlValue::OptionalText(self.title),
        ]
    }

    fn get_table_name() -> (r: String) {
        String::from_str("communities")
    }

    fn get_keys() -> (r: Vec<String>) {
        let r = vec![String::from_str("ap_id")];
        assert(views(r@) =~= Self::key_names());
        r
    }

    fn get_column_names() -> (r: Vec<String>) {
        let r = vec![
            String::from_str("ap_id"),
            String::from_str("icon"),
            String::from_str("name"),
            String::from_str("title"),
        ];
        assert(views(r@) =~= Self::column_names());
        r
    }

    fn get_values(&self) -> (r: Vec<SqlValue>) {
        let r = vec![
            SqlValue::Text(self.actor_id.clone()),
            SqlValue::OptionalText(copy_optional_text(&self.icon)),
            SqlValue::Text(self.name.clone()),
            SqlValue::OptionalText(copy_optional_text(&self.title)),
        ];
        assert(r@ =~= self.row_values());
        r
    }
}

/// Each value of a `communities` row is the field that its column names.
pub proof fn law_community_row(c: Community)
    ensures
        Community::column_names().len() == 4,
        c.row_values().len() == 4,
        Community::column_names()[0] == "ap_id"@ && c.row_values()[0] == SqlValue::Text(c.actor_id),
        Community::column_names()[1] == "icon"@ && c.row_values()[1] == SqlValue::OptionalText(c.icon),
        Community::column_names()[2] == "name"@ && c.row_values()[2] == SqlValue::Text(c.name),
        Community::column_names()[3] == "title"@ && c.row_values()[3] == SqlValue::OptionalText(c.title),
{
}

impl TableDefinition for Community {
    open spec fn column_types() -> Seq<(Seq<char>, DatabaseType)> {
        seq![
            ("ap_id"@, DatabaseType::Required(Box::new(DatabaseType::String(0)))),
            ("icon"@, DatabaseType::Optional(Box::new(DatabaseType::String(0)))),
            ("name"@, DatabaseType::Required(Box::new(DatabaseType::String(0)))),
            ("title"@, DatabaseType::Optional(Box::new(DatabaseType::String(0)))),
        ]
    }

    proof fn lemma_definitions_name_columns() {
        assert(definition_names(Self::column_types()) =~= Self::column_names());
    }

    fn get_column_types() -> (r: Vec<(String, DatabaseType)>) {
        let r = vec![
            (String::from_str("ap_id"), DatabaseType::String(0).not_null()),
            (String::from_str("icon"), DatabaseType::String(0).nullable()),
            (String::from_str("name"), DatabaseType::String(0).not_null()),
            (String::from_str("title"), DatabaseType::String(0).nullable()),
        ];
        assert(typed_views(r@) =~= Self::column_types());
        r
    }
}

} // verus!
