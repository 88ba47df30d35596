use vstd::prelude::*;
use crate::database::schema::copy_optional_text;
use crate::identity::RowIdentity;
use super::author::Author;
use super::community::Community;

verus! {

/// A post as an instance reports it. Times are microseconds since the Unix epoch.
pub struct Post {
    pub id: i64,
    pub ap_id: String,
    pub url: Option<String>,
    pub name: String,
    pub body: Option<String>,
    pub updated: Option<i64>,
    pub published: i64,
    pub nsfw: Option<bool>,
}

/// The counters of a post.
pub struct Counts {
    pub score: i32,
}

/// A post with its counters, author and community.
pub struct PostData {
    pub post: Post,
    pub counts: Counts,
    pub creator: Author,
    pub community: Community,
}

impl Post {
    /// A field-for-field copy.
    pub fn duplicate(&self) -> (r: Post)
        ensures
            r == *self,
    {
        Post {
            id: self.id,
            ap_id: self.ap_id.clone(),
            url: copy_optional_text(&self.url),
            name: self.name.clone(),
            body: copy_optional_text(&self.body),
            updated: self.updated,
            published: self.published,
            nsfw: self.nsfw,
        }
    }
}

impl PostData {
    /// A field-for-field copy.
    pub fn duplicate(&self) -> (r: PostData)
        ensures
            r == *self,
    {
        PostData {
            post: self.post.duplicate(),
            counts: Counts { score: self.counts.score },
            creator: self.creator.duplicate(),
            community: self.community.duplicate(),
        }
    }
}

impl RowIdentity for PostData {
    type Key = Seq<Seq<char>>;

    /// Posts are told apart by their activity-pub id.
    open spec fn identity(&self) -> Seq<Seq<char>> {
        seq![self.post.ap_id@]
    }

    fn same_identity(&self, other: &Self) -> (r: bool) {
        let r = self.post.ap_id == other.post.ap_id;
        assert(r ==> self.identity() =~= other.identity());
        assert(self.identity() == other.identity() ==> self.identity()[0] == other.identity()[0]);
        r
    }
}

/// Two crawled posts are the same row exactly when their activity-pub ids are
/// equal.
pub proof fn law_post_identity(a: PostData, b: PostData)
    ensures
        a.identity() == b.identity() <==> a.post.ap_id@ == b.post.ap_id@,
{
    if a.identity() == b.identity() {
        assert(a.identity()[0] == b.identity()[0]);
    }
    if a.post.ap_id@ == b.post.ap_id@ {
        assert(a.identity() =~= b.identity());
    }
}

} // verus!
