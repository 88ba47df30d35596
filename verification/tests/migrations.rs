use lemmy_search::database::migrations::{
    add_column_statements, drop_column_statements, new_table_columns, old_table_columns, remove_not_null,
    DatabaseMigrations, EXISTING_COLUMNS_QUERY,
};
use lemmy_search::database::schema::SqlValue;
use lemmy_search::database::schema::community::Community;
use lemmy_search::database::schema::site::Site;

fn strings(words: &[&str]) -> Vec<String> {
    words.iter().map(|w| w.to_string()).collect()
}

#[test]
fn migrations_keep_their_context() {
    let m = DatabaseMigrations::new(41u32);
    assert_eq!(*m.context(), 41);
}

#[test]
fn old_columns_skip_computed_and_current_ones() {
    let existing = strings(&["ap_id", "icon", "com_search", "last_update", "name", "last_update", "extra"]);
    assert_eq!(old_table_columns::<Community>(&existing), vec!["last_update", "extra"]);
    assert!(old_table_columns::<Site>(&strings(&["id", "name", "com_x"])).is_empty());
}

#[test]
fn drop_statements_for_old_columns() {
    let existing = strings(&["ap_id", "icon", "name", "title", "last_update"]);
    assert_eq!(
        drop_column_statements::<Community>(&existing),
        vec!["\n                    ALTER TABLE communities DROP COLUMN last_update\n                "]
    );
}

#[test]
fn add_statements_for_missing_nullable_columns() {
    let existing = strings(&["ap_id", "name"]);
    let steps = add_column_statements::<Community>(&existing);
    let sql: Vec<&str> = steps.iter().map(|s| s.sql.as_str()).collect();
    assert_eq!(
        sql,
        vec![
            "\n                    ALTER TABLE communities ADD COLUMN icon VARCHAR NULL;\n                ",
            "\n                    ALTER TABLE communities ADD COLUMN title VARCHAR NULL;\n                ",
        ]
    );
    assert!(steps.iter().all(|s| s.params.is_empty()));
    assert_eq!(new_table_columns::<Community>(&existing), vec!["icon", "title"]);
}

#[test]
fn required_columns_are_filled_then_made_not_null() {
    let steps = add_column_statements::<Community>(&strings(&["icon", "title"]));
    let sql: Vec<&str> = steps.iter().map(|s| s.sql.as_str()).collect();
    assert_eq!(
        sql,
        vec![
            "\n                    ALTER TABLE communities ADD COLUMN ap_id VARCHAR ;\n                ",
            "\n                        UPDATE communities SET ap_id = $1\n                    ",
            "\n                        ALTER TABLE communities ALTER COLUMN ap_id SET NOT NULL;\n                    ",
            "\n                    ALTER TABLE communities ADD COLUMN name VARCHAR ;\n                ",
            "\n                        UPDATE communities SET name = $1\n                    ",
            "\n                        ALTER TABLE communities ALTER COLUMN name SET NOT NULL;\n                    ",
        ]
    );
    assert!(matches!(&steps[1].params[..], [SqlValue::Text(s)] if s.is_empty()));
    assert!(steps[0].params.is_empty() && steps[2].params.is_empty());
}

#[test]
fn new_site_columns_take_type_defaults() {
    let steps = add_column_statements::<Site>(&strings(&["id", "name", "actor_id", "software"]));
    assert_eq!(steps.len(), 9);
    assert_eq!(
        steps[0].sql,
        "\n                    ALTER TABLE sites ADD COLUMN last_post_page INT4 ;\n                "
    );
    assert!(matches!(&steps[1].params[..], [SqlValue::Int4(0)]));
    assert!(matches!(&steps[7].params[..], [SqlValue::Timestamp(0)]));
    assert_eq!(
        steps[6].sql,
        "\n                    ALTER TABLE sites ADD COLUMN last_update TIMESTAMP WITH TIME ZONE ;\n                "
    );
    let unique = add_column_statements::<Site>(&strings(&["id", "name", "software", "last_post_page", "last_comment_page", "last_update"]));
    assert_eq!(unique.len(), 3);
    assert_eq!(
        unique[0].sql,
        "\n                    ALTER TABLE sites ADD COLUMN actor_id VARCHAR  UNIQUE;\n                "
    );
}

#[test]
fn not_null_is_taken_out_everywhere() {
    assert_eq!(remove_not_null("INT8 NOT NULL"), "INT8 ");
    assert_eq!(remove_not_null("NOT NULLNOT NULL x NOT NUL"), " x NOT NUL");
    assert_eq!(remove_not_null(""), "");
    assert_eq!(remove_not_null("VARCHAR NULL"), "VARCHAR NULL");
}

#[test]
fn the_column_listing_query() {
    assert!(EXISTING_COLUMNS_QUERY.contains("information_schema.columns"));
    assert!(EXISTING_COLUMNS_QUERY.contains("table_name = $1"));
}

#[test]
fn after_migration_the_table_has_the_schema_columns() {
    let existing = strings(&["ap_id", "com_search", "old", "title"]);
    assert_eq!(old_table_columns::<Community>(&existing), vec!["old"]);
    assert_eq!(new_table_columns::<Community>(&existing), vec!["icon", "name"]);
    let added = add_column_statements::<Community>(&existing);
    assert_eq!(added.len(), 4);
    assert!(added[0].sql.contains("ADD COLUMN icon "));
    assert!(added[1].sql.contains("ADD COLUMN name "));
    assert!(added[2].sql.contains("SET name = $1"));
    assert!(added[3].sql.contains("ALTER COLUMN name SET NOT NULL"));
}
