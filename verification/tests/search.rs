use lemmy_search::database::dbo::search::{
    community_query, community_results, community_search, is_page_in_range, page_offset_value, post_query, post_query_params_at,
    post_results, post_search, CommunityRow, PostRow, PAGE_LIMIT,
};

const POST_HEAD: &str = "\n            SELECT \n                    p.ap_id as p_actor_id,\n                    p.name as p_name,\n                    left(p.body, 300) as p_body,\n                    p.updated as p_updated,\n                    \n                    l.post_remote_id as p_remote_id,\n                    \n                    a.ap_id as a_actor_id,\n                    a.avatar as a_avatar,\n                    a.name as a_name,\n                    a.display_name as a_display_name,\n                    \n                    c.ap_id as c_actor_id,\n                    c.icon as c_icon,\n                    c.name as c_name,\n                    c.title as c_title,\n\n                    COUNT(*) OVER() AS total_results,\n                    ts_rank_cd(p.com_search, websearch_to_tsquery($1), 12) AS rank \n                FROM posts AS p\n                    INNER JOIN authors AS a ON a.ap_id = p.author_actor_id\n                    INNER JOIN communities AS c ON c.ap_id = p.community_ap_id\n                    INNER JOIN lemmy_ids AS l ON l.post_actor_id = p.ap_id\n                    WHERE p.com_search @@ websearch_to_tsquery($1)\n                        AND l.instance_actor_id = $7\n                        ";
const POST_TAIL: &str = "\n                ORDER BY\n                    rank DESC,\n                    p.score DESC\n                LIMIT 50\n                OFFSET $8\n            ";
const SEP: &str = "\n                        ";

#[test]
fn post_query_without_filters_names_every_parameter() {
    let q = post_query(false, false, false, true, false, false);
    let expected = format!(
        "{}{}{}{}{}{}{}{}{}{}{}{}{}",
        POST_HEAD,
        "AND $2 = $2",
        SEP,
        "AND $3 = $3",
        SEP,
        "AND $4 = $4",
        SEP,
        "",
        SEP,
        "AND $5::TIMESTAMPTZ = $5::TIMESTAMPTZ",
        SEP,
        "AND $6::TIMESTAMPTZ = $6::TIMESTAMPTZ",
        POST_TAIL
    );
    assert_eq!(q, expected);
}

#[test]
fn post_query_with_every_filter() {
    let q = post_query(true, true, true, false, true, true);
    let expected = format!(
        "{}{}{}{}{}{}{}{}{}{}{}{}{}",
        POST_HEAD,
        "AND LOWER(c.ap_id) LIKE $2 || '%'",
        SEP,
        "AND LOWER(c.ap_id) = $3",
        SEP,
        "AND LOWER(p.author_actor_id) = $4",
        SEP,
        "AND p.nsfw = FALSE",
        SEP,
        "AND p.updated > $5",
        SEP,
        "AND p.updated < $6",
        POST_TAIL
    );
    assert_eq!(q, expected);
}

#[test]
fn community_query_groups_by_community() {
    let q = community_query(true, false, false, false, true);
    let expected = "\n                SELECT \n                        c.ap_id AS c_actor_id, \n                        c.icon AS c_icon, \n                        c.name AS c_name, \n                        c.title AS c_title, \n                        COUNT(p.*) AS matches,\n                        COUNT(*) OVER() AS total_results\n                    FROM posts AS p\n                        INNER JOIN communities AS c ON c.ap_id = p.community_ap_id\n                        INNER JOIN lemmy_ids AS l ON l.post_actor_id = p.ap_id\n                    WHERE p.com_search @@ websearch_to_tsquery($1)\n                        AND l.instance_actor_id = $6\n                        AND c.ap_id LIKE $2 || '%'\n                        AND $3 = $3\n                        AND p.nsfw = FALSE\n                        AND $4::TIMESTAMPTZ = $4::TIMESTAMPTZ\n                        AND p.updated < $5\n                    GROUP BY c.ap_id\n                    ORDER BY \n                        matches DESC\n                    LIMIT 50\n                    OFFSET $7\n            ";
    assert_eq!(q, expected);
}

#[test]
fn page_offsets() {
    assert_eq!(PAGE_LIMIT, 50);
    assert_eq!(page_offset_value(1), 0);
    assert_eq!(page_offset_value(3), 100);
    assert_eq!(page_offset_value(0), -50);
}

#[test]
fn pages_whose_offset_overflows() {
    assert!(is_page_in_range(1));
    assert!(is_page_in_range(42949673));
    assert!(!is_page_in_range(42949674));
    assert!(is_page_in_range(-42949671));
    assert!(!is_page_in_range(-42949672));
    assert!(!is_page_in_range(i32::MIN));
}

#[test]
fn absent_filters_become_empty_or_defaults() {
    let p = post_query_params_at(
        &"rust verus".to_string(),
        &Some("https://lemmy.world".to_string()),
        &None,
        &None,
        Some(5),
        None,
        "https://home/",
        2,
        111,
        222,
    );
    assert_eq!(p.query, "rust verus");
    assert_eq!(p.instance, "https://lemmy.world");
    assert_eq!(p.community, "");
    assert_eq!(p.author, "");
    assert_eq!(p.since, 5);
    assert_eq!(p.until, 222);
    assert_eq!(p.home_instance, "https://home/");
    assert_eq!(p.offset, 50);
}

#[test]
fn a_search_carries_its_filters() {
    let s = post_search(&"q".to_string(), &None, &Some("c".to_string()), &None, true, Some(1), Some(2), "h", 1);
    assert_eq!(s.sql, post_query(false, true, false, true, true, true));
    assert_eq!(s.params.community, "c");
    assert_eq!(s.params.since, 1);
    assert_eq!(s.params.until, 2);
    assert_eq!(s.params.offset, 0);
    let c = community_search(&"q".to_string(), &None, &Some("a".to_string()), false, None, None, "h", 4);
    assert_eq!(c.sql, community_query(false, true, false, false, false));
    assert_eq!(c.params.author, "a");
    assert_eq!(c.params.offset, 150);
    assert!(c.params.since > 0 && c.params.until > 0);
}

fn row(id: &str, total: i64) -> PostRow {
    PostRow {
        p_actor_id: id.to_string(),
        p_name: "name".to_string(),
        p_body: Some("body".to_string()),
        p_updated: 17,
        p_remote_id: 99,
        a_actor_id: "author".to_string(),
        a_avatar: None,
        a_name: "an".to_string(),
        a_display_name: Some("AN".to_string()),
        c_actor_id: "community".to_string(),
        c_icon: None,
        c_name: "cn".to_string(),
        c_title: Some("CT".to_string()),
        total_results: total,
    }
}

#[test]
fn post_results_take_the_total_of_the_last_row() {
    let (posts, total) = post_results(&vec![row("p1", 7), row("p2", 8)]);
    assert_eq!(total, 8);
    assert_eq!(posts.len(), 2);
    assert_eq!(posts[1].actor_id, "p2");
    assert_eq!(posts[0].remote_id, 99);
    assert_eq!(posts[0].author.display_name.as_deref(), Some("AN"));
    assert_eq!(posts[0].community.title.as_deref(), Some("CT"));
    assert_eq!(posts[0].community.number_of_matches, None);
    let (none, zero) = post_results(&vec![]);
    assert!(none.is_empty());
    assert_eq!(zero, 0);
}

#[test]
fn totals_beyond_32_bits_are_cut() {
    let (_, total) = post_results(&vec![row("p", (1i64 << 32) + 5)]);
    assert_eq!(total, 5);
}

#[test]
fn community_results_count_matches() {
    let rows = vec![CommunityRow {
        c_actor_id: "c".to_string(),
        c_icon: Some("i".to_string()),
        c_name: "n".to_string(),
        c_title: None,
        matches: 12,
        total_results: 3,
    }];
    let (communities, total) = community_results(&rows);
    assert_eq!(total, 3);
    assert_eq!(communities[0].number_of_matches, Some(12));
    assert_eq!(communities[0].icon.as_deref(), Some("i"));
}
