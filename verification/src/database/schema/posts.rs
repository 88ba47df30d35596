//! The `posts` table as the search index keeps it.

use vstd::prelude::*;
use crate::api::lemmy::models::author::Author;
use crate::api::lemmy::models::post::PostData;
use crate::identity::RowIdentity;
use crate::text::views;
use super::community::Community;
use super::{DatabaseSchema, DatabaseType, SqlValue, TableDefinition, typed_views, definition_names, copy_optional_text};

verus! {

/// A post as the index stores it. `updated` is in microseconds since the
/// Unix epoch.
pub struct Post {
    pub ap_id: String,
    pub name: String,
    pub body: Option<String>,
    pub updated: i64,
    pub nsfw: bool,
    pub score: i32,
    pub author: Author,
    pub community: Community,
}

impl<'a> From<&'a PostData> for Post {
    fn from(post_data: &'a PostData) -> (r: Self) {
        let updated = match post_data.post.updated {
            Some(t) => t,
            None => post_data.post.published,
        };
        let nsfw = match post_data.post.nsfw {
            Some(b) => b,
            None => false,
        };
        Post {
            ap_id: post_data.post.ap_id.clone(),
            name: post_data.post.name.clone(),
            body: copy_optional_text(&post_data.post.body),
            updated,
            nsfw,
            score: post_data.counts.score,
            author: post_data.creator.duplicate(),
            community: Community::from(&post_data.community),
        }
    }
}

impl<'a> vstd::std_specs::convert::FromSpecImpl<&'a PostData> for Post {
    open spec fn obeys_from_spec() -> bool {
        true
    }

    /// The post's fields; the time of the last edit, or of publication when
    /// it was never edited; not marked NSFW when the instance does not say.
    open spec fn from_spec(post_data: &'a PostData) -> Self {
        Post {
            ap_id: post_data.post.ap_id,
            name: post_data.post.name,
            body: post_data.post.body,
            updated: match post_data.post.updated {
                Some(t) => t,
                None => post_data.post.published,
            },
            nsfw: match post_data.post.nsfw {
                Some(b) => b,
                None => false,
            },
            score: post_data.counts.score,
            author: post_data.creator,
            community: Community {
                actor_id: post_data.community.actor_id,
                icon: post_data.community.icon,
                name: post_data.community.name,
                title: post_data.community.title,
            },
        }
    }
}

/// A post row keeps the crawled post's activity-pub id, name, body and
/// score, its author as it is and its community field for field; its time is
/// that of the last edit, or of publication when the post was never edited;
/// it is NSFW only when the instance says so.
pub proof fn law_post_from_data(d: PostData)
    ensures
        ({
            let p = <Post as vstd::std_specs::convert::FromSpec<&PostData>>::from_spec(&d);
            &&& p.ap_id == d.post.ap_id
            &&& p.name == d.post.name
            &&& p.body == d.post.body
            &&& p.score == d.counts.score
            &&& p.author == d.creator
            &&& p.community.actor_id == d.community.actor_id
            &&& p.community.icon == d.community.icon
            &&& p.community.name == d.community.name
            &&& p.community.title == d.community.title
            &&& (d.post.updated matches Some(t) ==> p.updated == t)
            &&& (d.post.updated is None ==> p.updated == d.post.published)
            &&& (p.nsfw <==> d.post.nsfw == Some(true))
        }),
{
}

impl RowIdentity for Post {
    type Key = Seq<Seq<char>>;

    /// Posts are told apart by their activity-pub id.
    open spec fn identity(&self) -> Seq<Seq<char>> {
        seq![self.ap_id@]
    }

    fn same_identity(&self, other: &Self) -> (r: bool) {
        let r = self.ap_id == other.ap_id;
        assert(r ==> self.identity() =~= other.identity());
        assert(self.identity() == other.identity() ==> self.identity()[0] == other.identity()[0]);
        r
    }
}

/// Two post rows are the same row exactly when their activity-pub ids are
/// equal.
pub proof fn law_post_row_identity(a: Post, b: Post)
    ensures
        a.identity() == b.identity() <==> a.ap_id@ == b.ap_id@,
{
    if a.identity() == b.identity() {
        assert(a.identity()[0] == b.identity()[0]);
    }
    if a.ap_id@ == b.ap_id@ {
        assert(a.identity() =~= b.identity());
    }
}

impl DatabaseSchema for Post {
    open spec fn table_name() -> Seq<char> {
        "posts"@
    }

    open spec fn column_names() -> Seq<Seq<char>> {
        seq![
            "ap_id"@,
            "name"@,
            "body"@,
            "updated"@,
            "nsfw"@,
            "score"@,
            "author_actor_id"@,
            "community_ap_id"@,
        ]
    }

    /// The first column, as for every table that names no keys of its own.
    open spec fn key_names() -> Seq<Seq<char>> {
        seq!["ap_id"@]
    }

    open spec fn row_values(&self) -> Seq<SqlValue> {
        seq![
            SqlValue::Text(self.ap_id),
            SqlValue::Text(self.name),
            SqlValue::OptionalText(self.body),
            SqlValue::Timestamp(self.updated),
            SqlValue::Bool(self.nsfw),
            SqlValue::Int4(self.score),
            SqlValue::Text(self.author.actor_id),
            SqlValue::Text(self.community.actor_id),
        ]
    }

    fn get_table_name() -> (r: String) {
        String::from_str("posts")
    }

    fn get_keys() -> (r: Vec<String>) {
        let r = vec![String::from_str("ap_id")];
        assert(views(r@) =~= Self::key_names());
        r
    }

    fn get_column_names() -> (r: Vec<String>) {
        let r = vec![
            String::from_str("ap_id"),
            String::from_str("name"),
            String::from_str("body"),
            String::from_str("updated"),
            String::from_str("nsfw"),
            String::from_str("score"),
            String::from_str("author_actor_id"),
            String::from_str("community_ap_id"),
        ];
        assert(views(r@) =~= Self::column_names());
        r
    }

    fn get_values(&self) -> (r: Vec<SqlValue>) {
        let r = vec![
            SqlValue::Text(self.ap_id.clone()),
            SqlValue::Text(self.name.clone()),
            SqlValue::OptionalText(copy_optional_text(&self.body)),
            SqlValue::Timestamp(self.updated),
            SqlValue::Bool(self.nsfw),
            SqlValue::Int4(self.score),
            SqlValue::Text(self.author.actor_id.clone()),
            SqlValue::Text(self.community.actor_id.clone()),
        ];
        assert(r@ =~= self.row_values());
        r
    }
}

/// Each value of a `posts` row is the field that its column names: the
/// author's actor id under `author_actor_id` and the community's actor id
/// under `community_ap_id`.
pub proof fn law_post_row(p: Post)
    ensures
        Post::column_names().len() == 8,
        p.row_values().len() == 8,
        Post::column_names()[0] == "ap_id"@ && p.row_values()[0] == SqlValue::Text(p.ap_id),
        Post::column_names()[1] == "name"@ && p.row_values()[1] == SqlValue::Text(p.name),
        Post::column_names()[2] == "body"@ && p.row_values()[2] == SqlValue::OptionalText(p.body),
        Post::column_names()[3] == "updated"@ && p.row_values()[3] == SqlValue::Timestamp(p.updated),
        Post::column_names()[4] == "nsfw"@ && p.row_values()[4] == SqlValue::Bool(p.nsfw),
        Post::column_names()[5] == "score"@ && p.row_values()[5] == SqlValue::Int4(p.score),
        Post::column_names()[6] == "author_actor_id"@ && p.row_values()[6] == SqlValue::Text(p.author.actor_id),
        Post::column_names()[7] == "community_ap_id"@ && p.row_values()[7] == SqlValue::Text(p.community.actor_id),
{
}

impl TableDefinition for Post {
    open spec fn column_types() -> Seq<(Seq<char>, DatabaseType)> {
        seq![
            ("ap_id"@, DatabaseType::Required(Box::new(DatabaseType::String(0)))),
            ("name"@, DatabaseType::Required(Box::new(DatabaseType::String(0)))),
            ("body"@, DatabaseType::Optional(Box::new(DatabaseType::String(0)))),
            ("updated"@, DatabaseType::Required(Box::new(DatabaseType::DateTime))),
            ("nsfw"@, DatabaseType::Required(Box::new(DatabaseType::Bool))),
            ("score"@, DatabaseType::Required(Box::new(DatabaseType::I32))),
            ("author_actor_id"@, DatabaseType::Required(Box::new(DatabaseType::String(0)))),
            ("community_ap_id"@, DatabaseType::Required(Box::new(DatabaseType::String(0)))),
        ]
    }

    proof fn lemma_definitions_name_columns() {
        assert(definition_names(Self::column_types()) =~= Self::column_names());
    }

    fn get_column_types() -> (r: Vec<(String, DatabaseType)>) {
        let r = vec![
            (String::from_str("ap_id"), DatabaseType::String(0).not_null()),
            (String::from_str("name"), DatabaseType::String(0).not_null()),
            (String::from_str("body"), DatabaseType::String(0).nullable()),
            (String::from_str("updated"), DatabaseType::DateTime.not_null()),
            (String::from_str("nsfw"), DatabaseType::Bool.not_null()),
            (String::from_str("score"), DatabaseType::I32.not_null()),
            (String::from_str("author_actor_id"), DatabaseType::String(0).not_null()),
            (String::from_str("community_ap_id"), DatabaseType::String(0).not_null()),
        ];
        assert(typed_views(r@) =~= Self::column_types());
        r
    }
}

} // verus!
