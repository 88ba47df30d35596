//! The `sites` table: the instances that are crawled.

use vstd::prelude::*;
use crate::api::lemmy::models::site::{Site as LemmySite, SiteView};
use crate::sources::{new_uuid_v4, utc_now_micros, uuid_version, uuid_variant_bits};
use crate::text::{views, join, join_strings, placeholder, placeholders, placeholder_list,
    placeholder_text, position_of};
use super::{DatabaseSchema, DatabaseType, SqlValue, TableDefinition, typed_views, definition_names};

verus! {

/// A crawled instance. `last_update` is in microseconds since the Unix epoch.
pub struct Site {
    /// A UUID, as its 128-bit value.
    pub id: u128,
    pub name: String,
    pub actor_id: String,
    pub software: String,
    pub last_post_page: i32,
    pub last_comment_page: i32,
    pub last_update: i64,
}

impl From<Site> for LemmySite {
    fn from(value: Site) -> (r: Self) {
        LemmySite { name: value.name, actor_id: value.actor_id }
    }
}

impl vstd::std_specs::convert::FromSpecImpl<Site> for LemmySite {
    open spec fn obeys_from_spec() -> bool {
        true
    }

    /// The site's name and actor id.
    open spec fn from_spec(value: Site) -> Self {
        LemmySite { name: value.name, actor_id: value.actor_id }
    }
}

/// The statement that inserts a site, or, when a site with its actor id is
/// already there, updates its name and time of last update; `$1` to `$7`
/// are the values of the site's columns.
pub open spec fn upsert_query_text() -> Seq<char> {
    "\n                INSERT INTO "@ + "sites"@ + " ("@ + join(Site::column_names(), ", "@)
        + ")\n                    VALUES ("@ + join(placeholders(1, 7), ", "@)
        + ")\n                ON CONFLICT (actor_id)\n                DO UPDATE SET \"name\" = "@
        + placeholder(2) + ", last_update = "@ + placeholder(7) + "\n            "@
}

/// The query that reads every site.
pub open spec fn retrieve_all_query_text() -> Seq<char> {
    "\n                SELECT "@ + join(Site::column_names(), ", "@) + " FROM "@ + "sites"@
        + "\n            "@
}

impl Site {
    /// A newly found instance with the given id, found at time `now`:
    /// software `lemmy`, nothing crawled yet.
    pub fn from_site_view_at(site_view: SiteView, id: u128, now: i64) -> (r: Site)
        ensures
            r.id == id,
            r.name == site_view.site.name,
            r.actor_id == site_view.site.actor_id,
            r.software@ == "lemmy"@,
            r.last_post_page == 0,
            r.last_comment_page == 0,
            r.last_update == now,
    {
        Site {
            id,
            name: site_view.site.name,
            actor_id: site_view.site.actor_id,
            software: String::from_str("lemmy"),
            last_post_page: 0,
            last_comment_page: 0,
            last_update: now,
        }
    }

    /// A newly found instance: software `lemmy`, nothing crawled yet, a
    /// fresh random id, last updated at the current time.
    pub fn from_site_view(site_view: SiteView) -> (r: Site)
        ensures
            r.name == site_view.site.name,
            r.actor_id == site_view.site.actor_id,
            r.software@ == "lemmy"@,
            r.last_post_page == 0,
            r.last_comment_page == 0,
            uuid_version(r.id) == 4,
            uuid_variant_bits(r.id) == 2,
    {
        let id = new_uuid_v4();
        let now = utc_now_micros();
        Self::from_site_view_at(site_view, id, now)
    }

    /// A field-for-field copy.
    pub fn duplicate(&self) -> (r: Site)
        ensures
            r == *self,
    {
        Site {
            id: self.id,
            name: self.name.clone(),
            actor_id: self.actor_id.clone(),
            software: self.software.clone(),
            last_post_page: self.last_post_page,
            last_comment_page: self.last_comment_page,
            last_update: self.last_update,
        }
    }

    /// The statement that stores a site; its parameters are the site's values.
    pub fn upsert_query() -> (r: String)
        ensures
            r@ == upsert_query_text(),
    {
        let names = Self::get_column_names();
        let params = placeholder_list(1, names.len());
        let value_columns = join_strings(&params, ", ");
        let name_index = match position_of(&names, &String::from_str("name")) {
            Some(i) => i,
            None => 0,
        };
        let last_update_index = match position_of(&names, &String::from_str("last_update")) {
            Some(i) => i,
            None => 0,
        };
        proof {
            reveal_strlit("id");
            reveal_strlit("name");
            reveal_strlit("actor_id");
            reveal_strlit("software");
            reveal_strlit("last_post_page");
            reveal_strlit("last_comment_page");
            reveal_strlit("last_update");
            let v = views(names@);
            assert(v[0].len() == 2 && v[1] == "name"@);
            assert(v[0] != "name"@);
            assert(name_index == 1) by {
                if name_index == 0 {
                    assert(v[0] == "name"@);
                } else if name_index > 1 {
                    assert(v[1] != "name"@);
                }
            }
            assert(v[6] == "last_update"@);
            assert(last_update_index == 6) by {
                if last_update_index < 6 {
                    assert(v[last_update_index as int] == "last_update"@);
                    assert(v[last_update_index as int].len() != 11);
                }
            }
        }
        let mut q = String::from_str("\n                INSERT INTO ");
        let table = Self::get_table_name();
        q.append(table.as_str());
        q.append(" (");
        let columns = join_strings(&names, ", ");
        q.append(columns.as_str());
        q.append(")\n                    VALUES (");
        q.append(value_columns.as_str());
        q.append(")\n                ON CONFLICT (actor_id)\n                DO UPDATE SET \"name\" = ");
        let p1 = placeholder_text(name_index + 1);
        q.append(p1.as_str());
        q.append(", last_update = ");
        let p2 = placeholder_text(last_update_index + 1);
        q.append(p2.as_str());
        q.append("\n            ");
        q
    }

    /// The query that reads every site.
    pub fn retrieve_all_query() -> (r: String)
        ensures
            r@ == retrieve_all_query_text(),
    {
        let mut q = String::from_str("\n                SELECT ");
        let names = Self::get_column_names();
        let columns = join_strings(&names, ", ");
        q.append(columns.as_str());
        q.append(" FROM ");
        let table = Self::get_table_name();
        q.append(table.as_str());
        q.append("\n            ");
        q
    }
}

impl DatabaseSchema for Site {
    open spec fn table_name() -> Seq<char> {
        "sites"@
    }

    open spec fn column_names() -> Seq<Seq<char>> {
        seq![
            "id"@,
            "name"@,
            "actor_id"@,
            "software"@,
            "last_post_page"@,
            "last_comment_page"@,
            "last_update"@,
        ]
    }

    /// The first column, as for every table that names no keys of its own.
    open spec fn key_names() -> Seq<Seq<char>> {
        seq!["id"@]
    }

    open spec fn row_values(&self) -> Seq<SqlValue> {
        seq![
            SqlValue::Uuid(self.id),
            SqlValue::Text(self.name),
            SqlValue::Text(self.actor_id),
            SqlValue::Text(self.software),
            SqlValue::Int4(self.last_post_page),
            SqlValue::Int4(self.last_comment_page),
            SqlValue::Timestamp(self.last_update),
        ]
    }

    fn get_table_name() -> (r: String) {
        String::from_str("sites")
    }

    fn get_keys() -> (r: Vec<String>) {
        let r = vec![String::from_str("id")];
        assert(views(r@) =~= Self::key_names());
        r
    }

    fn get_column_names() -> (r: Vec<String>) {
        let r = vec![
            String::from_str("id"),
            String::from_str("name"),
            String::from_str("actor_id"),
            String::from_str("software"),
            String::from_str("last_post_page"),
            String::from_str("last_comment_page"),
            String::from_str("last_update"),
        ];
        assert(views(r@) =~= Self::column_names());
        r
    }

    fn get_values(&self) -> (r: Vec<SqlValue>) {
        let r = vec![
            SqlValue::Uuid(self.id),
            SqlValue::Text(self.name.clone()),
            SqlValue::Text(self.actor_id.clone()),
            SqlValue::Text(self.software.clone()),
            SqlValue::Int4(self.last_post_page),
            SqlValue::Int4(self.last_comment_page),
            SqlValue::Timestamp(self.last_update),
        ];
        assert(r@ =~= self.row_values());
        r
    }
}

/// Each value of a `sites` row is the field that its column names.
pub proof fn law_site_row(s: Site)
    ensures
        Site::column_names().len() == 7,
        s.row_values().len() == 7,
        Site::column_names()[0] == "id"@ && s.row_values()[0] == SqlValue::Uuid(s.id),
        Site::column_names()[1] == "name"@ && s.row_values()[1] == SqlValue::Text(s.name),
        Site::column_names()[2] == "actor_id"@ && s.row_values()[2] == SqlValue::Text(s.actor_id),
        Site::column_names()[3] == "software"@ && s.row_values()[3] == SqlValue::Text(s.software),
        Site::column_names()[4] == "last_post_page"@ && s.row_values()[4] == SqlValue::Int4(s.last_post_page),
        Site::column_names()[5] == "last_comment_page"@ && s.row_values()[5] == SqlValue::Int4(s.last_comment_page),
        Site::column_names()[6] == "last_update"@ && s.row_values()[6] == SqlValue::Timestamp(s.last_update),
{
}

impl TableDefinition for Site {
    open spec fn column_types() -> Seq<(Seq<char>, DatabaseType)> {
        seq![
            ("id"@, DatabaseType::Required(Box::new(DatabaseType::Uuid))),
            ("name"@, DatabaseType::Required(Box::new(DatabaseType::String(0)))),
            ("actor_id"@, DatabaseType::Unique(Box::new(DatabaseType::Required(Box::new(DatabaseType::String(0)))))),
            ("software"@, DatabaseType::Required(Box::new(DatabaseType::String(0)))),
            ("last_post_page"@, DatabaseType::Required(Box::new(DatabaseType::I32))),
            ("last_comment_page"@, DatabaseType::Required(Box::new(DatabaseType::I32))),
            ("last_update"@, DatabaseType::Required(Box::new(DatabaseType::DateTime))),
        ]
    }

    proof fn lemma_definitions_name_columns() {
        assert(definition_names(Self::column_types()) =~= Self::column_names());
    }

    fn get_column_types() -> (r: Vec<(String, DatabaseType)>) {
        let r = vec![
            (String::from_str("id"), DatabaseType::Uuid.not_null()),
            (String::from_str("name"), DatabaseType::String(0).not_null()),
            (String::from_str("actor_id"), DatabaseType::String(0).not_null().unique()),
            (String::from_str("software"), DatabaseType::String(0).not_null()),
            (String::from_str("last_post_page"), DatabaseType::I32.not_null()),
            (String::from_str("last_comment_page"), DatabaseType::I32.not_null()),
            (String::from_str("last_update"), DatabaseType::DateTime.not_null()),
        ];
        assert(typed_views(r@) =~= Self::column_types());
        r
    }
}

} // verus!
