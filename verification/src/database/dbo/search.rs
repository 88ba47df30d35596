//! Full-text search over the index: the query text for the filters a user
//! gave, its parameters, and the assembly of result rows.

use vstd::prelude::*;
use crate::api::search::models::search::{SearchAuthor, SearchCommunity, SearchPost};
use crate::database::schema::copy_optional_text;
use crate::sources::utc_now_micros;
use crate::text::{decimal, usize_to_decimal, contains_text, lemma_contains_itself, lemma_contains_within};

verus! {

/// The number of results on a page.
pub const PAGE_LIMIT: i32 = 50;

/// Line break and indentation between the filter clauses.
pub const FILTER_SEPARATOR: &'static str = "\n                        ";

/// The post query up to its filter clauses.
pub const POST_QUERY_HEAD: &'static str = "\n            SELECT \n                    p.ap_id as p_actor_id,\n                    p.name as p_name,\n                    left(p.body, 300) as p_body,\n                    p.updated as p_updated,\n                    \n                    l.post_remote_id as p_remote_id,\n                    \n                    a.ap_id as a_actor_id,\n                    a.avatar as a_avatar,\n                    a.name as a_name,\n                    a.display_name as a_display_name,\n                    \n                    c.ap_id as c_actor_id,\n                    c.icon as c_icon,\n                    c.name as c_name,\n                    c.title as c_title,\n\n                    COUNT(*) OVER() AS total_results,\n                    ts_rank_cd(p.com_search, websearch_to_tsquery($1), 12) AS rank \n                FROM posts AS p\n                    INNER JOIN authors AS a ON a.ap_id = p.author_actor_id\n                    INNER JOIN communities AS c ON c.ap_id = p.community_ap_id\n                    INNER JOIN lemmy_ids AS l ON l.post_actor_id = p.ap_id\n                    WHERE p.com_search @@ websearch_to_tsquery($1)\n                        AND l.instance_actor_id = $7\n                        ";

/// The post query from its ordering to its page size.
pub const POST_QUERY_ORDER: &'static str = "\n                ORDER BY\n                    rank DESC,\n                    p.score DESC\n                LIMIT ";

/// The post query after its page size.
pub const POST_QUERY_OFFSET: &'static str = "\n                OFFSET $8\n            ";

/// The community query up to its filter clauses.
pub const COMMUNITY_QUERY_HEAD: &'static str = "\n                SELECT \n                        c.ap_id AS c_actor_id, \n                        c.icon AS c_icon, \n                        c.name AS c_name, \n                        c.title AS c_title, \n                        COUNT(p.*) AS matches,\n                        COUNT(*) OVER() AS total_results\n                    FROM posts AS p\n                        INNER JOIN communities AS c ON c.ap_id = p.community_ap_id\n                        INNER JOIN lemmy_ids AS l ON l.post_actor_id = p.ap_id\n                    WHERE p.com_search @@ websearch_to_tsquery($1)\n                        AND l.instance_actor_id = $6\n                        ";

/// The community query from its grouping to its page size.
pub const COMMUNITY_QUERY_ORDER: &'static str = "\n                    GROUP BY c.ap_id\n                    ORDER BY \n                        matches DESC\n                    LIMIT ";

/// The community query after its page size.
pub const COMMUNITY_QUERY_OFFSET: &'static str = "\n                    OFFSET $7\n            ";

/// The clause of a filter, as it is given or not:
/// an absent filter still names its parameter, so that every parameter is used.
pub open spec fn filter_clause(present: bool, clause: Seq<char>, absent: Seq<char>) -> Seq<char> {
    if present { clause } else { absent }
}

/// The filter clauses of the post query, in order.
pub open spec fn post_filters(
    instance: bool,
    community: bool,
    author: bool,
    nsfw: bool,
    since: bool,
    until: bool,
) -> Seq<Seq<char>> {
    seq![
        filter_clause(instance, "AND LOWER(c.ap_id) LIKE $2 || '%'"@, "AND $2 = $2"@),
        filter_clause(community, "AND LOWER(c.ap_id) = $3"@, "AND $3 = $3"@),
        filter_clause(author, "AND LOWER(p.author_actor_id) = $4"@, "AND $4 = $4"@),
        filter_clause(!nsfw, "AND p.nsfw = FALSE"@, ""@),
        filter_clause(since, "AND p.updated > $5"@, "AND $5::TIMESTAMPTZ = $5::TIMESTAMPTZ"@),
        filter_clause(until, "AND p.updated < $6"@, "AND $6::TIMESTAMPTZ = $6::TIMESTAMPTZ"@),
    ]
}

/// The filter clauses of the community query, in order.
pub open spec fn community_filters(
    instance: bool,
    author: bool,
    nsfw: bool,
    since: bool,
    until: bool,
) -> Seq<Seq<char>> {
    seq![
        filter_clause(instance, "AND c.ap_id LIKE $2 || '%'"@, "AND $2 = $2"@),
        filter_clause(author, "AND p.author_actor_id = $3"@, "AND $3 = $3"@),
        filter_clause(!nsfw, "AND p.nsfw = FALSE"@, ""@),
        filter_clause(since, "AND p.updated > $4"@, "AND $4::TIMESTAMPTZ = $4::TIMESTAMPTZ"@),
        filter_clause(until, "AND p.updated < $5"@, "AND $5::TIMESTAMPTZ = $5::TIMESTAMPTZ"@),
    ]
}

/// The clauses, each after a separator but the first.
pub open spec fn clauses_text(clauses: Seq<Seq<char>>) -> Seq<char>
    decreases clauses.len(),
{
    if clauses.len() == 0 {
        Seq::empty()
    } else if clauses.len() == 1 {
        clauses[0]
    } else {
        clauses_text(clauses.drop_last()) + FILTER_SEPARATOR@ + clauses.last()
    }
}

/// The query for posts matching the search: ranked by relevance, then by
/// score, one page of `PAGE_LIMIT` from offset `$8`, each row with the
/// number of all matches.
pub open spec fn post_query_text(
    instance: bool,
    community: bool,
    author: bool,
    nsfw: bool,
    since: bool,
    until: bool,
) -> Seq<char> {
    POST_QUERY_HEAD@ + clauses_text(post_filters(instance, community, author, nsfw, since, until))
        + POST_QUERY_ORDER@ + decimal(50) + POST_QUERY_OFFSET@
}

/// The query for the communities of posts matching the search, by number of
/// matching posts, one page of `PAGE_LIMIT` from offset `$7`.
pub open spec fn community_query_text(
    instance: bool,
    author: bool,
    nsfw: bool,
    since: bool,
    until: bool,
) -> Seq<char> {
    COMMUNITY_QUERY_HEAD@ + clauses_text(community_filters(instance, author, nsfw, since, until))
        + COMMUNITY_QUERY_ORDER@ + decimal(50) + COMMUNITY_QUERY_OFFSET@
}

fn pick_clause<'a>(present: bool, clause: &'a str, absent: &'a str) -> (r: &'a str)
    ensures
        r@ == filter_clause(present, clause@, absent@),
{
    if present { clause } else { absent }
}

fn append_clauses(q: &mut String, clauses: &Vec<&str>)
    requires
        clauses@.len() > 0,
    ensures
        final(q)@ == old(q)@ + clauses_text(clauses@.map_values(|c: &str| c@)),
{
    let ghost start = q@;
    let ghost cs = clauses@.map_values(|c: &str| c@);
    q.append(clauses[0]);
    assert(cs.take(1) =~= seq![cs[0]]);
    let n = clauses.len();
    let mut i: usize = 1;
    while i < n
        invariant
            n == clauses@.len(),
            1 <= i <= n,
            cs == clauses@.map_values(|c: &str| c@),
            q@ == start + clauses_text(cs.take(i as int)),
        decreases n - i,
    {
        q.append(FILTER_SEPARATOR);
        q.append(clauses[i]);
        assert(cs.take(i + 1).drop_last() =~= cs.take(i as int));
        assert(cs.take(i + 1).last() == clauses@[i as int]@);
        i = i + 1;
    }
    assert(cs.take(n as int) =~= cs);
}

/// The query for posts matching the search with the given filters.
pub fn post_query(
    instance: bool,
    community: bool,
    author: bool,
    nsfw: bool,
    since: bool,
    until: bool,
) -> (r: String)
    ensures
        r@ == post_query_text(instance, community, author, nsfw, since, until),
{
    let clauses = vec![
        pick_clause(instance, "AND LOWER(c.ap_id) LIKE $2 || '%'", "AND $2 = $2"),
        pick_clause(community, "AND LOWER(c.ap_id) = $3", "AND $3 = $3"),
        pick_clause(author, "AND LOWER(p.author_actor_id) = $4", "AND $4 = $4"),
        pick_clause(!nsfw, "AND p.nsfw = FALSE", ""),
        pick_clause(since, "AND p.updated > $5", "AND $5::TIMESTAMPTZ = $5::TIMESTAMPTZ"),
        pick_clause(until, "AND p.updated < $6", "AND $6::TIMESTAMPTZ = $6::TIMESTAMPTZ"),
    ];
    assert(clauses@.map_values(|c: &str| c@) =~= post_filters(instance, community, author, nsfw, since, until));
    let mut q = String::from_str(POST_QUERY_HEAD);
    append_clauses(&mut q, &clauses);
    q.append(POST_QUERY_ORDER);
    let limit = usize_to_decimal(PAGE_LIMIT as usize);
    q.append(limit.as_str());
    q.append(POST_QUERY_OFFSET);
    q
}

/// The query for the communities of posts matching the search with the
/// given filters.
pub fn community_query(instance: bool, author: bool, nsfw: bool, since: bool, until: bool) -> (r:
    String)
    ensures
        r@ == community_query_text(instance, author, nsfw, since, until),
{
    let clauses = vec![
        pick_clause(instance, "AND c.ap_id LIKE $2 || '%'", "AND $2 = $2"),
        pick_clause(author, "AND p.author_actor_id = $3", "AND $3 = $3"),
        pick_clause(!nsfw, "AND p.nsfw = FALSE", ""),
        pick_clause(since, "AND p.updated > $4", "AND $4::TIMESTAMPTZ = $4::TIMESTAMPTZ"),
        pick_clause(until, "AND p.updated < $5", "AND $5::TIMESTAMPTZ = $5::TIMESTAMPTZ"),
    ];
    assert(clauses@.map_values(|c: &str| c@) =~= community_filters(instance, author, nsfw, since, until));
    let mut q = String::from_str(COMMUNITY_QUERY_HEAD);
    append_clauses(&mut q, &clauses);
    q.append(COMMUNITY_QUERY_ORDER);
    let limit = usize_to_decimal(PAGE_LIMIT as usize);
    q.append(limit.as_str());
    q.append(COMMUNITY_QUERY_OFFSET);
    q
}

/// Each clause occurs in the text of the clauses.
proof fn lemma_clauses_text_contains(clauses: Seq<Seq<char>>, j: int)
    requires
        0 <= j < clauses.len(),
    ensures
        contains_text(clauses_text(clauses), clauses[j]),
    decreases clauses.len(),
{
    if clauses.len() == 1 {
        lemma_contains_itself(clauses[0]);
    } else {
        let prev = clauses.drop_last();
        if j == clauses.len() - 1 {
            lemma_contains_itself(clauses.last());
            lemma_contains_within(clauses_text(prev) + FILTER_SEPARATOR@, clauses.last(), Seq::empty(), clauses.last());
            assert(clauses_text(prev) + FILTER_SEPARATOR@ + clauses.last() + Seq::empty() =~= clauses_text(clauses));
        } else {
            lemma_clauses_text_contains(prev, j);
            assert(prev[j] == clauses[j]);
            lemma_contains_within(Seq::empty(), clauses_text(prev), FILTER_SEPARATOR@ + clauses.last(), clauses[j]);
            assert(Seq::empty() + clauses_text(prev) + (FILTER_SEPARATOR@ + clauses.last()) =~= clauses_text(clauses));
        }
    }
}

/// Each filter clause occurs in the post query.
proof fn lemma_post_query_contains(
    instance: bool,
    community: bool,
    author: bool,
    nsfw: bool,
    since: bool,
    until: bool,
    j: int,
)
    requires
        0 <= j < 6,
    ensures
        contains_text(post_query_text(instance, community, author, nsfw, since, until), post_filters(instance, community, author, nsfw, since, until)[j]),
{
    let clauses = post_filters(instance, community, author, nsfw, since, until);
    lemma_clauses_text_contains(clauses, j);
    let after = POST_QUERY_ORDER@ + decimal(50) + POST_QUERY_OFFSET@;
    lemma_contains_within(POST_QUERY_HEAD@, clauses_text(clauses), after, clauses[j]);
    assert(POST_QUERY_HEAD@ + clauses_text(clauses) + after =~= post_query_text(instance, community, author, nsfw, since, until));
}

/// Each filter clause occurs in the community query.
proof fn lemma_community_query_contains(
    instance: bool,
    author: bool,
    nsfw: bool,
    since: bool,
    until: bool,
    j: int,
)
    requires
        0 <= j < 5,
    ensures
        contains_text(community_query_text(instance, author, nsfw, since, until), community_filters(instance, author, nsfw, since, until)[j]),
{
    let clauses = community_filters(instance, author, nsfw, since, until);
    lemma_clauses_text_contains(clauses, j);
    let after = COMMUNITY_QUERY_ORDER@ + decimal(50) + COMMUNITY_QUERY_OFFSET@;
    lemma_contains_within(COMMUNITY_QUERY_HEAD@, clauses_text(clauses), after, clauses[j]);
    assert(COMMUNITY_QUERY_HEAD@ + clauses_text(clauses) + after =~= community_query_text(instance, author, nsfw, since, until));
}

/// Each filter of the post search narrows the results by its own clause,
/// whatever the other filters are: a given instance keeps the communities
/// whose actor id starts with it, a given community only that community, a
/// given author only that author; NSFW posts are left out unless asked for;
/// `since` keeps the posts updated after it and `until` those updated before
/// it. An absent filter still names its parameter in a clause that holds of
/// every row.
pub proof fn law_post_query_filters(
    instance: bool,
    community: bool,
    author: bool,
    nsfw: bool,
    since: bool,
    until: bool,
)
    ensures
        instance ==> contains_text(post_query_text(instance, community, author, nsfw, since, until), "AND LOWER(c.ap_id) LIKE $2 || '%'"@),
        !instance ==> contains_text(post_query_text(instance, community, author, nsfw, since, until), "AND $2 = $2"@),
        community ==> contains_text(post_query_text(instance, community, author, nsfw, since, until), "AND LOWER(c.ap_id) = $3"@),
        !community ==> contains_text(post_query_text(instance, community, author, nsfw, since, until), "AND $3 = $3"@),
        author ==> contains_text(post_query_text(instance, community, author, nsfw, since, until), "AND LOWER(p.author_actor_id) = $4"@),
        !author ==> contains_text(post_query_text(instance, community, author, nsfw, since, until), "AND $4 = $4"@),
        !nsfw ==> contains_text(post_query_text(instance, community, author, nsfw, since, until), "AND p.nsfw = FALSE"@),
        since ==> contains_text(post_query_text(instance, community, author, nsfw, since, until), "AND p.updated > $5"@),
        !since ==> contains_text(post_query_text(instance, community, author, nsfw, since, until), "AND $5::TIMESTAMPTZ = $5::TIMESTAMPTZ"@),
        until ==> contains_text(post_query_text(instance, community, author, nsfw, since, until), "AND p.updated < $6"@),
        !until ==> contains_text(post_query_text(instance, community, author, nsfw, since, until), "AND $6::TIMESTAMPTZ = $6::TIMESTAMPTZ"@),
{
    lemma_post_query_contains(instance, community, author, nsfw, since, until, 0);
    lemma_post_query_contains(instance, community, author, nsfw, since, until, 1);
    lemma_post_query_contains(instance, community, author, nsfw, since, until, 2);
    lemma_post_query_contains(instance, community, author, nsfw, since, until, 3);
    lemma_post_query_contains(instance, community, author, nsfw, since, until, 4);
    lemma_post_query_contains(instance, community, author, nsfw, since, until, 5);
}

/// Each filter of the community search narrows the counted posts by its own
/// clause, whatever the other filters are: `since` keeps the posts updated
/// after it and `until` those updated before it; NSFW posts are left out
/// unless asked for. An absent filter still names its parameter in a clause
/// that holds of every row.
pub proof fn law_community_query_filters(
    instance: bool,
    author: bool,
    nsfw: bool,
    since: bool,
    until: bool,
)
    ensures
        instance ==> contains_text(community_query_text(instance, author, nsfw, since, until), "AND c.ap_id LIKE $2 || '%'"@),
        !instance ==> contains_text(community_query_text(instance, author, nsfw, since, until), "AND $2 = $2"@),
        author ==> contains_text(community_query_text(instance, author, nsfw, since, until), "AND p.author_actor_id = $3"@),
        !author ==> contains_text(community_query_text(instance, author, nsfw, since, until), "AND $3 = $3"@),
        !nsfw ==> contains_text(community_query_text(instance, author, nsfw, since, until), "AND p.nsfw = FALSE"@),
        since ==> contains_text(community_query_text(instance, author, nsfw, since, until), "AND p.updated > $4"@),
        !since ==> contains_text(community_query_text(instance, author, nsfw, since, until), "AND $4::TIMESTAMPTZ = $4::TIMESTAMPTZ"@),
        until ==> contains_text(community_query_text(instance, author, nsfw, since, until), "AND p.updated < $5"@),
        !until ==> contains_text(community_query_text(instance, author, nsfw, since, until), "AND $5::TIMESTAMPTZ = $5::TIMESTAMPTZ"@),
{
    lemma_community_query_contains(instance, author, nsfw, since, until, 0);
    lemma_community_query_contains(instance, author, nsfw, since, until, 1);
    lemma_community_query_contains(instance, author, nsfw, since, until, 2);
    lemma_community_query_contains(instance, author, nsfw, since, until, 3);
    lemma_community_query_contains(instance, author, nsfw, since, until, 4);
}

/// The text of an optional filter value, empty when the filter is absent.
pub open spec fn text_or_empty(o: Option<String>) -> Seq<char> {
    match o {
        Some(s) => s@,
        None => Seq::empty(),
    }
}

/// The offset of a page: pages are numbered from 1.
pub open spec fn page_offset(page: i32) -> int {
    PAGE_LIMIT * (page - 1)
}

/// The offset of `page` can be computed in 32 bits.
pub open spec fn page_in_range(page: i32) -> bool {
    i32::MIN < page && i32::MIN <= page_offset(page) <= i32::MAX
}

/// Pages are numbered from 1 and follow one another without gap or
/// overlap: the first page starts at offset 0 and each page starts
/// `PAGE_LIMIT` results after the one before.
pub proof fn law_page_offsets(page: i32)
    ensures
        page_offset(1) == 0,
        page_offset(page) + PAGE_LIMIT == page_offset((page + 1) as i32) || page == i32::MAX,
{
}

/// The parameters `$1` to `$8` of the post query.
pub struct PostQueryParams {
    pub query: String,
    pub instance: String,
    pub community: String,
    pub author: String,
    /// Microseconds since the Unix epoch.
    pub since: i64,
    /// Microseconds since the Unix epoch.
    pub until: i64,
    pub home_instance: String,
    pub offset: i64,
}

/// The parameters `$1` to `$7` of the community query.
pub struct CommunityQueryParams {
    pub query: String,
    pub instance: String,
    pub author: String,
    /// Microseconds since the Unix epoch.
    pub since: i64,
    /// Microseconds since the Unix epoch.
    pub until: i64,
    pub home_instance: String,
    pub offset: i64,
}

/// The value of a text filter, or the empty text when it is absent.
fn text_or_empty_value(o: &Option<String>) -> (r: String)
    ensures
        r@ == text_or_empty(*o),
{
    match o {
        Some(s) => s.clone(),
        None => String::new(),
    }
}

/// Whether the offset of `page` can be computed in 32 bits.
pub fn is_page_in_range(page: i32) -> (r: bool)
    ensures
        r == page_in_range(page),
{
    page > i32::MIN && page - 1 >= i32::MIN / PAGE_LIMIT && page - 1 <= i32::MAX / PAGE_LIMIT
}

/// The offset of `page`.
pub fn page_offset_value(page: i32) -> (r: i64)
    requires
        page_in_range(page),
    ensures
        r == page_offset(page),
{
    (PAGE_LIMIT * (page - 1)) as i64
}

/// The parameters of the post query; absent time bounds take the given
/// defaults.
pub fn post_query_params_at(
    query: &String,
    instance: &Option<String>,
    community: &Option<String>,
    author: &Option<String>,
    since: Option<i64>,
    until: Option<i64>,
    home_instance: &str,
    page: i32,
    since_default: i64,
    until_default: i64,
) -> (r: PostQueryParams)
    requires
        page_in_range(page),
    ensures
        r.query == *query,
        r.instance@ == text_or_empty(*instance),
        r.community@ == text_or_empty(*community),
        r.author@ == text_or_empty(*author),
        r.since == match since { Some(t) => t, None => since_default },
        r.until == match until { Some(t) => t, None => until_default },
        r.home_instance@ == home_instance@,
        r.offset == page_offset(page),
{
    PostQueryParams {
        query: query.clone(),
        instance: text_or_empty_value(instance),
        community: text_or_empty_value(community),
        author: text_or_empty_value(author),
        since: match since { Some(t) => t, None => since_default },
        until: match until { Some(t) => t, None => until_default },
        home_instance: String::from_str(home_instance),
        offset: page_offset_value(page),
    }
}

/// The parameters of the community query; absent time bounds take the
/// given defaults.
pub fn community_query_params_at(
    query: &String,
    instance: &Option<String>,
    author: &Option<String>,
    since: Option<i64>,
    until: Option<i64>,
    home_instance: &str,
    page: i32,
    since_default: i64,
    until_default: i64,
) -> (r: CommunityQueryParams)
    requires
        page_in_range(page),
    ensures
        r.query == *query,
        r.instance@ == text_or_empty(*instance),
        r.author@ == text_or_empty(*author),
        r.since == match since { Some(t) => t, None => since_default },
        r.until == match until { Some(t) => t, None => until_default },
        r.home_instance@ == home_instance@,
        r.offset == page_offset(page),
{
    CommunityQueryParams {
        query: query.clone(),
        instance: text_or_empty_value(instance),
        author: text_or_empty_value(author),
        since: match since { Some(t) => t, None => since_default },
        until: match until { Some(t) => t, None => until_default },
        home_instance: String::from_str(home_instance),
        offset: page_offset_value(page),
    }
}

/// A post search: the query text and its parameters.
pub struct PostSearch {
    pub sql: String,
    pub params: PostQueryParams,
}

/// A community search: the query text and its parameters.
pub struct CommunitySearch {
    pub sql: String,
    pub params: CommunityQueryParams,
}

/// The search for posts matching `query` under the given filters, on page
/// `page`; absent time bounds are the current time.
pub fn post_search(
    query: &String,
    instance: &Option<String>,
    community: &Option<String>,
    author: &Option<String>,
    nsfw: bool,
    since: Option<i64>,
    until: Option<i64>,
    home_instance: &str,
    page: i32,
) -> (r: PostSearch)
    requires
        page_in_range(page),
    ensures
        r.sql@ == post_query_text(
            instance is Some,
            community is Some,
            author is Some,
            nsfw,
            since is Some,
            until is Some,
        ),
        r.params.query == *query,
        r.params.instance@ == text_or_empty(*instance),
        r.params.community@ == text_or_empty(*community),
        r.params.author@ == text_or_empty(*author),
        since matches Some(t) ==> r.params.since == t,
        until matches Some(t) ==> r.params.until == t,
        r.params.home_instance@ == home_instance@,
        r.params.offset == page_offset(page),
{
    let sql = post_query(
        instance.is_some(),
        community.is_some(),
        author.is_some(),
        nsfw,
        since.is_some(),
        until.is_some(),
    );
    let since_default = utc_now_micros();
    let until_default = utc_now_micros();
    let params = post_query_params_at(
        query,
        instance,
        community,
        author,
        since,
        until,
        home_instance,
        page,
        since_default,
        until_default,
    );
    PostSearch { sql, params }
}

/// The search for communities of posts matching `query` under the given
/// filters, on page `page`; absent time bounds are the current time.
pub fn community_search(
    query: &String,
    instance: &Option<String>,
    author: &Option<String>,
    nsfw: bool,
    since: Option<i64>,
    until: Option<i64>,
    home_instance: &str,
    page: i32,
) -> (r: CommunitySearch)
    requires
        page_in_range(page),
    ensures
        r.sql@ == community_query_text(
            instance is Some,
            author is Some,
            nsfw,
            since is Some,
            until is Some,
        ),
        r.params.query == *query,
        r.params.instance@ == text_or_empty(*instance),
        r.params.author@ == text_or_empty(*author),
        since matches Some(t) ==> r.params.since == t,
        until matches Some(t) ==> r.params.until == t,
        r.params.home_instance@ == home_instance@,
        r.params.offset == page_offset(page),
{
    let sql = community_query(
        instance.is_some(),
        author.is_some(),
        nsfw,
        since.is_some(),
        until.is_some(),
    );
    let since_default = utc_now_micros();
    let until_default = utc_now_micros();
    let params = community_query_params_at(
        query,
        instance,
        author,
        since,
        until,
        home_instance,
        page,
        since_default,
        until_default,
    );
    CommunitySearch { sql, params }
}

/// A row of the post query, column by column. Times are microseconds since
/// the Unix epoch.
pub struct PostRow {
    pub p_actor_id: String,
    pub p_name: String,
    pub p_body: Option<String>,
    pub p_updated: i64,
    pub p_remote_id: i64,
    pub a_actor_id: String,
    pub a_avatar: Option<String>,
    pub a_name: String,
    pub a_display_name: Option<String>,
    pub c_actor_id: String,
    pub c_icon: Option<String>,
    pub c_name: String,
    pub c_title: Option<String>,
    pub total_results: i64,
}

/// A row of the community query, column by column.
pub struct CommunityRow {
    pub c_actor_id: String,
    pub c_icon: Option<String>,
    pub c_name: String,
    pub c_title: Option<String>,
    pub matches: i64,
    pub total_results: i64,
}

/// The search result of a row of the post query.
pub open spec fn post_of_row(row: PostRow) -> SearchPost {
    SearchPost {
        actor_id: row.p_actor_id,
        name: row.p_name,
        body: row.p_body,
        updated: row.p_updated,
        remote_id: row.p_remote_id,
        author: SearchAuthor {
            actor_id: row.a_actor_id,
            avatar: row.a_avatar,
            name: row.a_name,
            display_name: row.a_display_name,
        },
        community: SearchCommunity {
            actor_id: row.c_actor_id,
            icon: row.c_icon,
            name: row.c_name,
            title: row.c_title,
            number_of_matches: None,
        },
    }
}

/// The search result of a row of the community query.
pub open spec fn community_of_row(row: CommunityRow) -> SearchCommunity {
    SearchCommunity {
        actor_id: row.c_actor_id,
        icon: row.c_icon,
        name: row.c_name,
        title: row.c_title,
        number_of_matches: Some(row.matches),
    }
}

/// Each field of a post search result comes from the column of the same
/// name in its row: the post's from the `p_` columns, its author's from the
/// `a_` columns and its community's from the `c_` columns; a post result
/// carries no match count for its community.
pub proof fn law_post_results_columns(rows: Seq<PostRow>)
    ensures
        rows.map_values(|row: PostRow| post_of_row(row)).len() == rows.len(),
        forall|i: int| #![trigger rows[i]] 0 <= i < rows.len() ==> {
            let p = rows.map_values(|row: PostRow| post_of_row(row))[i];
            let row = rows[i];
            &&& p.actor_id == row.p_actor_id
            &&& p.name == row.p_name
            &&& p.body == row.p_body
            &&& p.updated == row.p_updated
            &&& p.remote_id == row.p_remote_id
            &&& p.author.actor_id == row.a_actor_id
            &&& p.author.avatar == row.a_avatar
            &&& p.author.name == row.a_name
            &&& p.author.display_name == row.a_display_name
            &&& p.community.actor_id == row.c_actor_id
            &&& p.community.icon == row.c_icon
            &&& p.community.name == row.c_name
            &&& p.community.title == row.c_title
            &&& p.community.number_of_matches is None
        },
{
}

/// Each field of a community search result comes from the column of the
/// same name in its row, and its match count from the `matches` column.
pub proof fn law_community_results_columns(rows: Seq<CommunityRow>)
    ensures
        rows.map_values(|row: CommunityRow| community_of_row(row)).len() == rows.len(),
        forall|i: int| #![trigger rows[i]] 0 <= i < rows.len() ==> {
            let c = rows.map_values(|row: CommunityRow| community_of_row(row))[i];
            let row = rows[i];
            &&& c.actor_id == row.c_actor_id
            &&& c.icon == row.c_icon
            &&& c.name == row.c_name
            &&& c.title == row.c_title
            &&& c.number_of_matches == Some(row.matches)
        },
{
}

/// The number of all matches that the last row reports, cut to 32 bits; 0
/// when there are no rows.
pub open spec fn reported_total(totals: Seq<i64>) -> i32 {
    if totals.len() == 0 {
        0
    } else {
        totals.last() as i32
    }
}

/// The results of the post query and the number of all matches.
pub fn post_results(rows: &Vec<PostRow>) -> (r: (Vec<SearchPost>, i32))
    ensures
        r.0@ == rows@.map_values(|row: PostRow| post_of_row(row)),
        r.1 == reported_total(rows@.map_values(|row: PostRow| row.total_results)),
{
    let mut posts: Vec<SearchPost> = Vec::new();
    let mut total_results: i32 = 0;
    let n = rows.len();
    let mut i: usize = 0;
    while i < n
        invariant
            n == rows@.len(),
            i <= n,
            posts@ =~= rows@.take(i as int).map_values(|row: PostRow| post_of_row(row)),
            total_results == reported_total(rows@.take(i as int).map_values(|row: PostRow| row.total_results)),
        decreases n - i,
    {
        let row = &rows[i];
        total_results = row.total_results as i32;
        posts.push(SearchPost {
            actor_id: row.p_actor_id.clone(),
            name: row.p_name.clone(),
            body: copy_optional_text(&row.p_body),
            updated: row.p_updated,
            remote_id: row.p_remote_id,
            author: SearchAuthor {
                actor_id: row.a_actor_id.clone(),
                avatar: copy_optional_text(&row.a_avatar),
                name: row.a_name.clone(),
                display_name: copy_optional_text(&row.a_display_name),
            },
            community: SearchCommunity {
                actor_id: row.c_actor_id.clone(),
                icon: copy_optional_text(&row.c_icon),
                name: row.c_name.clone(),
                title: copy_optional_text(&row.c_title),
                number_of_matches: None,
            },
        });
        i = i + 1;
        assert(posts@ =~= rows@.take(i as int).map_values(|row: PostRow| post_of_row(row)));
        assert(rows@.take(i as int).map_values(|row: PostRow| row.total_results).last() == rows@[i - 1].total_results);
    }
    assert(rows@.take(n as int) =~= rows@);
    (posts, total_results)
}

/// The results of the community query and the number of all matches.
pub fn community_results(rows: &Vec<CommunityRow>) -> (r: (Vec<SearchCommunity>, i32))
    ensures
        r.0@ == rows@.map_values(|row: CommunityRow| community_of_row(row)),
        r.1 == reported_total(rows@.map_values(|row: CommunityRow| row.total_results)),
{
    let mut communities: Vec<SearchCommunity> = Vec::new();
    let mut total_results: i32 = 0;
    let n = rows.len();
    let mut i: usize = 0;
    while i < n
        invariant
            n == rows@.len(),
            i <= n,
            communities@ =~= rows@.take(i as int).map_values(|row: CommunityRow| community_of_row(row)),
            total_results == reported_total(rows@.take(i as int).map_values(|row: CommunityRow| row.total_results)),
        decreases n - i,
    {
        let row = &rows[i];
        total_results = row.total_results as i32;
        communities.push(SearchCommunity {
            actor_id: row.c_actor_id.clone(),
            icon: copy_optional_text(&row.c_icon),
            name: row.c_name.clone(),
            title: copy_optional_text(&row.c_title),
            number_of_matches: Some(row.matches),
        });
        i = i + 1;
        assert(communities@ =~= rows@.take(i as int).map_values(|row: CommunityRow| community_of_row(row)));
        assert(rows@.take(i as int).map_values(|row: CommunityRow| row.total_results).last() == rows@[i - 1].total_results);
    }
    assert(rows@.take(n as int) =~= rows@);
    (communities, total_results)
}

} // verus!
