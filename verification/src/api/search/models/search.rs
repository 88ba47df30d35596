use vstd::prelude::*;

verus! {

/// The author of a post in a search result.
pub struct SearchAuthor {
    pub actor_id: String,
    pub avatar: Option<String>,
    pub name: String,
    pub display_name: Option<String>,
}

/// A community in a search result; the number of matching posts is given
/// when communities themselves are searched.
pub struct SearchCommunity {
    pub actor_id: String,
    pub icon: Option<String>,
    pub name: String,
    pub title: Option<String>,
    pub number_of_matches: Option<i64>,
}

/// A post in a search result. `updated` is in microseconds since the Unix epoch.
pub struct SearchPost {
    pub actor_id: String,
    pub name: String,
    pub body: Option<String>,
    pub updated: i64,
    pub remote_id: i64,
    pub author: SearchAuthor,
    pub community: SearchCommunity,
}

} // verus!
