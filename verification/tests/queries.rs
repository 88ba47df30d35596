use lemmy_search::api::lemmy::models::author::Author;
use lemmy_search::api::lemmy::models::id::LemmyId;
use lemmy_search::database::dbo::crawler::{bulk_get_query, words_insert_query};
use lemmy_search::api::lemmy::models::post::PostData;
use lemmy_search::database::schema::community::Community;
use lemmy_search::database::schema::posts::Post;
use lemmy_search::database::schema::site::Site;
use lemmy_search::database::schema::version::Version;
use lemmy_search::database::schema::word::Word;
use lemmy_search::database::schema::xref::Search;
use lemmy_search::database::table_creation_statements;

#[test]
fn creating_the_communities_table() {
    let statements = table_creation_statements::<Community>(false);
    assert_eq!(statements.len(), 1);
    assert_eq!(
        statements[0],
        "\n            CREATE TABLE IF NOT EXISTS communities (\n                ap_id\tVARCHAR NOT NULL,\nicon\tVARCHAR NULL,\nname\tVARCHAR NOT NULL,\ntitle\tVARCHAR NULL\n                , PRIMARY KEY (ap_id)\n            )\n        "
    );
}

#[test]
fn creating_a_table_after_dropping_it() {
    let statements = table_creation_statements::<Version>(true);
    assert_eq!(statements.len(), 2);
    assert_eq!(statements[0], "\n            DROP TABLE IF EXISTS version\n        ");
    assert_eq!(
        statements[1],
        "\n            CREATE TABLE IF NOT EXISTS version (\n                version_number\tINT4 NOT NULL\n                , PRIMARY KEY (version_number)\n            )\n        "
    );
}

#[test]
fn creating_the_lemmy_ids_table_with_a_compound_key() {
    let statements = table_creation_statements::<LemmyId>(false);
    assert_eq!(
        statements[0],
        "\n            CREATE TABLE IF NOT EXISTS lemmy_ids (\n                post_remote_id\tINT8 NOT NULL,\npost_actor_id\tVARCHAR NOT NULL,\ninstance_actor_id\tVARCHAR NOT NULL\n                , PRIMARY KEY (post_actor_id, instance_actor_id)\n            )\n        "
    );
}

fn author(id: &str) -> Author {
    Author { actor_id: id.to_string(), avatar: None, name: "n".to_string(), display_name: None }
}

#[test]
fn bulk_insert_of_nothing_is_skipped() {
    assert!(bulk_get_query::<Author>(&vec![]).is_none());
    assert!(bulk_get_query::<Word>(&vec![]).is_none());
}

#[test]
fn bulk_insert_updates_columns_outside_the_key() {
    let q = bulk_get_query(&vec![author("a"), author("b")]).unwrap();
    assert_eq!(
        q,
        "\n                INSERT INTO authors (ap_id, avatar, name, display_name)\n                    VALUES \n                        ($1, $2, $3, $4),\n\t\t\t\t($5, $6, $7, $8)\n                ON CONFLICT (ap_id) DO\n                    UPDATE SET\n                        avatar = excluded.avatar,\n\t\t\tname = excluded.name,\n\t\t\tdisplay_name = excluded.display_name\n            "
    );
}

#[test]
fn bulk_insert_of_lemmy_ids_updates_the_remote_id() {
    let ids = vec![LemmyId {
        post_remote_id: 3,
        post_actor_id: "p".to_string(),
        instance_actor_id: "i".to_string(),
    }];
    let q = bulk_get_query(&ids).unwrap();
    assert_eq!(
        q,
        "\n                INSERT INTO lemmy_ids (post_remote_id, post_actor_id, instance_actor_id)\n                    VALUES \n                        ($1, $2, $3)\n                ON CONFLICT (post_actor_id, instance_actor_id) DO\n                    UPDATE SET\n                        post_remote_id = excluded.post_remote_id\n            "
    );
}

#[test]
fn bulk_insert_keyed_by_every_column_does_nothing_on_conflict() {
    let xrefs = vec![
        Search { word_id: 1, post_ap_id: "p".to_string() },
        Search { word_id: 2, post_ap_id: "p".to_string() },
        Search { word_id: 3, post_ap_id: "q".to_string() },
    ];
    let q = bulk_get_query(&xrefs).unwrap();
    assert_eq!(
        q,
        "\n                INSERT INTO xref (word_id, post_ap_id)\n                    VALUES \n                        ($1, $2),\n\t\t\t\t($3, $4),\n\t\t\t\t($5, $6)\n                ON CONFLICT (word_id, post_ap_id) \n                    DO NOTHING\n            "
    );
}

#[test]
fn inserting_words_ignores_known_words() {
    let words = vec![Word::from("rust".to_string()), Word::from("verus".to_string())];
    assert_eq!(
        words_insert_query(&words),
        "\n                INSERT INTO words (id, word)\n                    VALUES \n                        ($1, $2),\n\t\t\t\t($3, $4)\n                ON CONFLICT (word) \n                    DO NOTHING\n            "
    );
}

#[test]
fn site_upsert_updates_name_and_time() {
    assert_eq!(
        Site::upsert_query(),
        "\n                INSERT INTO sites (id, name, actor_id, software, last_post_page, last_comment_page, last_update)\n                    VALUES ($1, $2, $3, $4, $5, $6, $7)\n                ON CONFLICT (actor_id)\n                DO UPDATE SET \"name\" = $2, last_update = $7\n            "
    );
}

#[test]
fn site_retrieval_reads_every_column() {
    assert_eq!(
        Site::retrieve_all_query(),
        "\n                SELECT id, name, actor_id, software, last_post_page, last_comment_page, last_update FROM sites\n            "
    );
}

#[test]
fn finding_a_remote_id() {
    assert_eq!(
        LemmyId::find_query(),
        "\n                SELECT post_remote_id FROM lemmy_ids\n                    WHERE post_actor_id = $1\n                        AND instance_actor_id = $2\n            "
    );
}

#[test]
fn creating_the_sites_and_posts_tables() {
    assert_eq!(
        table_creation_statements::<Site>(false)[0],
        "\n            CREATE TABLE IF NOT EXISTS sites (\n                id\tUUID NOT NULL,\nname\tVARCHAR NOT NULL,\nactor_id\tVARCHAR NOT NULL UNIQUE,\nsoftware\tVARCHAR NOT NULL,\nlast_post_page\tINT4 NOT NULL,\nlast_comment_page\tINT4 NOT NULL,\nlast_update\tTIMESTAMP WITH TIME ZONE NOT NULL\n                , PRIMARY KEY (id)\n            )\n        "
    );
    assert_eq!(
        table_creation_statements::<PostData>(false)[0],
        "\n            CREATE TABLE IF NOT EXISTS posts (\n                ap_id\tVARCHAR NOT NULL,\nurl\tVARCHAR NULL,\nname\tVARCHAR NOT NULL,\nbody\tVARCHAR NULL,\nscore\tINT4,\nauthor_actor_id\tVARCHAR NOT NULL,\ncommunity_ap_id\tVARCHAR NOT NULL\n                , PRIMARY KEY (ap_id)\n            )\n        "
    );
    assert!(table_creation_statements::<Post>(true)[1].contains("updated\tTIMESTAMP WITH TIME ZONE NOT NULL,\nnsfw\tBOOL NOT NULL"));
}
