use lemmy_search::api::lemmy::models::author::Author;
use lemmy_search::api::lemmy::models::community::Community;
use lemmy_search::api::lemmy::models::post::{Counts, Post, PostData};
use lemmy_search::database::dbo::crawler::{collect_distinct, collect_post_batch, collect_words, lemmy_ids_for_posts};
use lemmy_search::database::schema::xref::Search;
use lemmy_search::identity::{extend_distinct, insert_distinct};

fn post(ap_id: &str, id: i64, creator: &str, community: &str) -> PostData {
    PostData {
        post: Post {
            id,
            ap_id: ap_id.to_string(),
            url: None,
            name: format!("post {}", id),
            body: None,
            updated: None,
            published: 0,
            nsfw: None,
        },
        counts: Counts { score: 1 },
        creator: Author {
            actor_id: creator.to_string(),
            avatar: None,
            name: creator.to_string(),
            display_name: None,
        },
        community: Community {
            actor_id: community.to_string(),
            icon: None,
            name: community.to_string(),
            title: None,
        },
    }
}

fn strings(words: &[&str]) -> Vec<String> {
    words.iter().map(|w| w.to_string()).collect()
}

#[test]
fn inserting_a_row_twice_keeps_the_first() {
    let mut set: Vec<Search> = Vec::new();
    assert!(insert_distinct(&mut set, Search { word_id: 1, post_ap_id: "p".to_string() }));
    assert!(!insert_distinct(&mut set, Search { word_id: 1, post_ap_id: "p".to_string() }));
    assert!(insert_distinct(&mut set, Search { word_id: 1, post_ap_id: "q".to_string() }));
    assert_eq!(set.len(), 2);
    extend_distinct(
        &mut set,
        vec![
            Search { word_id: 2, post_ap_id: "p".to_string() },
            Search { word_id: 1, post_ap_id: "q".to_string() },
        ],
    );
    assert_eq!(set.len(), 3);
    assert_eq!(set[2].word_id, 2);
}

#[test]
fn collecting_keeps_first_of_each_identity() {
    let authors = vec![
        Author { actor_id: "a".to_string(), avatar: None, name: "first".to_string(), display_name: None },
        Author { actor_id: "b".to_string(), avatar: None, name: "b".to_string(), display_name: None },
        Author { actor_id: "a".to_string(), avatar: None, name: "second".to_string(), display_name: None },
    ];
    let set = collect_distinct(authors);
    assert_eq!(set.len(), 2);
    assert_eq!(set[0].name, "first");
    assert_eq!(set[1].actor_id, "b");
}

#[test]
fn lemmy_ids_are_one_per_post_actor_id() {
    let posts = vec![post("https://x/p/1", 10, "a", "c"), post("https://x/p/2", 20, "a", "c"), post("https://x/p/1", 30, "b", "d")];
    let ids = lemmy_ids_for_posts("https://home/", &posts);
    assert_eq!(ids.len(), 2);
    assert_eq!(ids[0].post_remote_id, 10);
    assert_eq!(ids[0].post_actor_id, "https://x/p/1");
    assert_eq!(ids[0].instance_actor_id, "https://home/");
    assert_eq!(ids[1].post_remote_id, 20);
}

#[test]
fn words_are_collected_once_each() {
    let words = collect_words(&vec![strings(&["rust", "verus"]), strings(&[]), strings(&["verus", "proof", "rust"])]);
    let texts: Vec<&str> = words.iter().map(|w| w.word.as_str()).collect();
    assert_eq!(texts, vec!["rust", "verus", "proof"]);
    assert!(words.iter().all(|w| (w.id >> 76) & 0xf == 4));
}

#[test]
fn a_batch_holds_each_row_once() {
    let posts = vec![
        post("https://x/p/1", 1, "https://x/u/a", "https://x/c/rust"),
        post("https://x/p/2", 2, "https://x/u/b", "https://x/c/rust"),
        post("https://x/p/1", 1, "https://x/u/a", "https://x/c/rust"),
    ];
    let words = vec![strings(&["hello"]), strings(&["hello", "world"]), strings(&["hello"])];
    let batch = collect_post_batch("https://home/", &posts, &words);
    assert_eq!(batch.authors.len(), 2);
    assert_eq!(batch.communities.len(), 1);
    assert_eq!(batch.lemmy_ids.len(), 2);
    assert_eq!(batch.words.len(), 2);
    assert_eq!(batch.posts.len(), 2);
    assert_eq!(batch.posts[1].post.ap_id, "https://x/p/2");
}

#[test]
fn an_empty_batch_is_empty() {
    let batch = collect_post_batch("https://home/", &vec![], &vec![]);
    assert!(batch.authors.is_empty());
    assert!(batch.communities.is_empty());
    assert!(batch.lemmy_ids.is_empty());
    assert!(batch.words.is_empty());
    assert!(batch.posts.is_empty());
}
