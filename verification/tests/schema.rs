use lemmy_search::api::lemmy::models::author::Author;
use lemmy_search::api::lemmy::models::community::Community as LemmyCommunity;
use lemmy_search::api::lemmy::models::id::LemmyId;
use lemmy_search::api::lemmy::models::post::{Counts, Post as LemmyPost, PostData};
use lemmy_search::api::lemmy::models::site::{Site as LemmySite, SiteView};
use lemmy_search::database::schema::community::Community;
use lemmy_search::database::schema::posts::Post;
use lemmy_search::database::schema::site::Site;
use lemmy_search::database::schema::version::Version;
use lemmy_search::database::schema::word::Word;
use lemmy_search::database::schema::xref::Search;
use lemmy_search::database::schema::{DatabaseSchema, DatabaseType, SqlValue, TableDefinition};
use lemmy_search::text::{join_strings, placeholder_text, usize_to_decimal};

fn author(id: &str) -> Author {
    Author {
        actor_id: id.to_string(),
        avatar: None,
        name: format!("name of {}", id),
        display_name: Some("Display".to_string()),
    }
}

fn community(id: &str) -> LemmyCommunity {
    LemmyCommunity {
        actor_id: id.to_string(),
        icon: Some("icon.png".to_string()),
        name: "rust".to_string(),
        title: None,
    }
}

#[test]
fn sql_type_names_of_plain_types() {
    assert_eq!(DatabaseType::Bool.to_sql_type_name(), "BOOL");
    assert_eq!(DatabaseType::I8.to_sql_type_name(), "CHAR");
    assert_eq!(DatabaseType::I16.to_sql_type_name(), "INT2");
    assert_eq!(DatabaseType::I32.to_sql_type_name(), "INT4");
    assert_eq!(DatabaseType::I64.to_sql_type_name(), "INT8");
    assert_eq!(DatabaseType::Uuid.to_sql_type_name(), "UUID");
}

#[test]
fn sql_type_names_of_strings() {
    assert_eq!(DatabaseType::String(0).to_sql_type_name(), "VARCHAR");
    assert_eq!(DatabaseType::String(-3).to_sql_type_name(), "VARCHAR");
    assert_eq!(DatabaseType::String(255).to_sql_type_name(), "VARCHAR(255)");
    assert_eq!(DatabaseType::String(1).to_sql_type_name(), "VARCHAR(1)");
    assert_eq!(DatabaseType::String(i16::MAX).to_sql_type_name(), "VARCHAR(32767)");
}

#[test]
fn not_null_and_nullable_append_their_constraint() {
    assert_eq!(DatabaseType::I64.not_null().to_sql_type_name(), "INT8 NOT NULL");
    assert_eq!(DatabaseType::String(0).nullable().to_sql_type_name(), "VARCHAR NULL");
    assert_eq!(
        DatabaseType::String(20).nullable().not_null().to_sql_type_name(),
        "VARCHAR(20) NULL NOT NULL"
    );
    assert!(matches!(DatabaseType::Bool.not_null(), DatabaseType::Required(b) if matches!(*b, DatabaseType::Bool)));
    assert!(matches!(DatabaseType::Uuid.nullable(), DatabaseType::Optional(b) if matches!(*b, DatabaseType::Uuid)));
}

#[test]
fn date_time_and_unique_types() {
    assert_eq!(DatabaseType::DateTime.to_sql_type_name(), "TIMESTAMP WITH TIME ZONE");
    assert_eq!(DatabaseType::DateTime.not_null().to_sql_type_name(), "TIMESTAMP WITH TIME ZONE NOT NULL");
    assert_eq!(DatabaseType::String(0).not_null().unique().to_sql_type_name(), "VARCHAR NOT NULL UNIQUE");
}

#[test]
fn nullability_of_types() {
    assert!(DatabaseType::I32.is_nullable());
    assert!(DatabaseType::I32.nullable().is_nullable());
    assert!(!DatabaseType::I32.not_null().is_nullable());
    assert!(!DatabaseType::String(0).not_null().unique().is_nullable());
    assert!(DatabaseType::String(0).unique().is_nullable());
}

#[test]
fn default_values_of_types() {
    assert!(matches!(DatabaseType::Bool.get_default_value(), SqlValue::Bool(false)));
    assert!(matches!(DatabaseType::I8.get_default_value(), SqlValue::Char(0)));
    assert!(matches!(DatabaseType::I16.get_default_value(), SqlValue::Int2(0)));
    assert!(matches!(DatabaseType::I32.not_null().get_default_value(), SqlValue::Int4(0)));
    assert!(matches!(DatabaseType::I64.get_default_value(), SqlValue::Int8(0)));
    assert!(matches!(DatabaseType::String(5).get_default_value(), SqlValue::Text(s) if s.is_empty()));
    assert!(matches!(DatabaseType::Uuid.get_default_value(), SqlValue::Uuid(0)));
    assert!(matches!(DatabaseType::DateTime.not_null().get_default_value(), SqlValue::Timestamp(0)));
}

#[test]
fn decimal_and_placeholders() {
    assert_eq!(usize_to_decimal(0), "0");
    assert_eq!(usize_to_decimal(9), "9");
    assert_eq!(usize_to_decimal(10), "10");
    assert_eq!(usize_to_decimal(1234567890), "1234567890");
    assert_eq!(placeholder_text(12), "$12");
    let items = vec!["a".to_string(), "b".to_string(), "c".to_string()];
    assert_eq!(join_strings(&items, ", "), "a, b, c");
    assert_eq!(join_strings(&vec![], ", "), "");
    assert_eq!(join_strings(&vec!["x".to_string()], ", "), "x");
}

#[test]
fn table_names_and_keys() {
    assert_eq!(Author::get_table_name(), "authors");
    assert_eq!(Community::get_table_name(), "communities");
    assert_eq!(LemmyId::get_table_name(), "lemmy_ids");
    assert_eq!(Version::get_table_name(), "version");
    assert_eq!(Word::get_table_name(), "words");
    assert_eq!(Search::get_table_name(), "xref");
    assert_eq!(Post::get_table_name(), "posts");
    assert_eq!(PostData::get_table_name(), "posts");
    assert_eq!(Site::get_table_name(), "sites");
    assert_eq!(Community::get_keys(), vec!["ap_id"]);
    assert_eq!(LemmyId::get_keys(), vec!["post_actor_id", "instance_actor_id"]);
    assert_eq!(Word::get_keys(), vec!["id", "word"]);
    assert_eq!(Search::get_keys(), vec!["word_id", "post_ap_id"]);
    assert_eq!(Version::get_keys(), vec!["version_number"]);
    assert_eq!(Site::get_keys(), vec!["id"]);
    assert_eq!(Vec::<Word>::get_keys(), vec!["id", "word"]);
    assert_eq!(Vec::<Word>::get_table_name(), "words");
}

#[test]
fn column_names_of_each_table() {
    assert_eq!(Community::get_column_names(), vec!["ap_id", "icon", "name", "title"]);
    assert_eq!(
        LemmyId::get_column_names(),
        vec!["post_remote_id", "post_actor_id", "instance_actor_id"]
    );
    assert_eq!(
        Post::get_column_names(),
        vec!["ap_id", "name", "body", "updated", "nsfw", "score", "author_actor_id", "community_ap_id"]
    );
    assert_eq!(
        PostData::get_column_names(),
        vec!["ap_id", "url", "name", "body", "score", "author_actor_id", "community_ap_id"]
    );
    assert_eq!(
        Site::get_column_names(),
        vec!["id", "name", "actor_id", "software", "last_post_page", "last_comment_page", "last_update"]
    );
    assert_eq!(Author::get_column_names(), vec!["ap_id", "avatar", "name", "display_name"]);
}

#[test]
fn column_types_render_as_sql() {
    let types: Vec<(String, String)> = LemmyId::get_column_types()
        .iter()
        .map(|(n, t)| (n.clone(), t.to_sql_type_name()))
        .collect();
    assert_eq!(
        types,
        vec![
            ("post_remote_id".to_string(), "INT8 NOT NULL".to_string()),
            ("post_actor_id".to_string(), "VARCHAR NOT NULL".to_string()),
            ("instance_actor_id".to_string(), "VARCHAR NOT NULL".to_string()),
        ]
    );
    let community: Vec<String> =
        Community::get_column_types().iter().map(|(_, t)| t.to_sql_type_name()).collect();
    assert_eq!(community, vec!["VARCHAR NOT NULL", "VARCHAR NULL", "VARCHAR NOT NULL", "VARCHAR NULL"]);
    let words: Vec<String> = Word::get_column_types().iter().map(|(_, t)| t.to_sql_type_name()).collect();
    assert_eq!(words, vec!["UUID NOT NULL", "VARCHAR NOT NULL"]);
    let version: Vec<String> = Version::get_column_types().iter().map(|(_, t)| t.to_sql_type_name()).collect();
    assert_eq!(version, vec!["INT4 NOT NULL"]);
}

#[test]
fn values_follow_the_columns() {
    let id = LemmyId {
        post_remote_id: 42,
        post_actor_id: "https://a/post/1".to_string(),
        instance_actor_id: "https://b/".to_string(),
    };
    let values = id.get_values();
    assert_eq!(values.len(), 3);
    assert!(matches!(values[0], SqlValue::Int8(42)));
    assert!(matches!(&values[1], SqlValue::Text(s) if s == "https://a/post/1"));
    assert!(matches!(&values[2], SqlValue::Text(s) if s == "https://b/"));
    let a = author("https://a/u/x");
    let av = a.get_values();
    assert!(matches!(&av[1], SqlValue::OptionalText(None)));
    assert!(matches!(&av[3], SqlValue::OptionalText(Some(s)) if s == "Display"));
}

#[test]
fn values_of_a_vector_come_row_after_row() {
    let rows = vec![author("a"), author("b")];
    let values = rows.get_values();
    assert_eq!(values.len(), 8);
    assert!(matches!(&values[0], SqlValue::Text(s) if s == "a"));
    assert!(matches!(&values[4], SqlValue::Text(s) if s == "b"));
    assert_eq!(Vec::<Author>::new().get_values().len(), 0);
}

#[test]
fn community_from_lemmy_community_copies_fields() {
    let c = Community::from(&community("https://c/1"));
    assert_eq!(c.actor_id, "https://c/1");
    assert_eq!(c.icon.as_deref(), Some("icon.png"));
    assert_eq!(c.name, "rust");
    assert_eq!(c.title, None);
}

fn post_data(ap_id: &str, updated: Option<i64>, nsfw: Option<bool>) -> PostData {
    PostData {
        post: LemmyPost {
            id: 7,
            ap_id: ap_id.to_string(),
            url: None,
            name: "A post".to_string(),
            body: Some("body".to_string()),
            updated,
            published: 1_000,
            nsfw,
        },
        counts: Counts { score: 12 },
        creator: author("https://a/u/x"),
        community: community("https://c/1"),
    }
}

#[test]
fn post_from_post_data_falls_back_to_published_and_safe() {
    let p = Post::from(&post_data("https://a/post/1", None, None));
    assert_eq!(p.updated, 1_000);
    assert!(!p.nsfw);
    assert_eq!(p.score, 12);
    assert_eq!(p.author.actor_id, "https://a/u/x");
    assert_eq!(p.community.actor_id, "https://c/1");
    let q = Post::from(&post_data("https://a/post/2", Some(5_000), Some(true)));
    assert_eq!(q.updated, 5_000);
    assert!(q.nsfw);
    let values = q.get_values();
    assert!(matches!(values[3], SqlValue::Timestamp(5_000)));
    assert!(matches!(values[4], SqlValue::Bool(true)));
}

#[test]
fn site_from_view_is_a_fresh_lemmy_site() {
    let view = SiteView {
        site: LemmySite { name: "Lemmy World".to_string(), actor_id: "https://lemmy.world/".to_string() },
    };
    let site = Site::from_site_view(view);
    assert_eq!(site.name, "Lemmy World");
    assert_eq!(site.actor_id, "https://lemmy.world/");
    assert_eq!(site.software, "lemmy");
    assert_eq!(site.last_post_page, 0);
    assert_eq!(site.last_comment_page, 0);
    assert_eq!((site.id >> 76) & 0xf, 4);
    assert!(site.last_update > 0);
    let at = Site::from_site_view_at(
        SiteView { site: LemmySite { name: "n".to_string(), actor_id: "a".to_string() } },
        77,
        123_456,
    );
    assert_eq!(at.id, 77);
    assert_eq!(at.last_update, 123_456);
    assert_eq!(at.software, "lemmy");
    let back = LemmySite::from(site.duplicate());
    assert_eq!(back.name, "Lemmy World");
    assert_eq!(back.actor_id, "https://lemmy.world/");
}

#[test]
fn words_get_random_version_four_ids() {
    let a = Word::from("rust".to_string());
    let b = Word::from("rust".to_string());
    assert_eq!(a.word, "rust");
    assert_eq!((a.id >> 76) & 0xf, 4);
    assert_eq!((a.id >> 62) & 0x3, 2);
    assert_ne!(a.id, b.id);
}
