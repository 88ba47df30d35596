use vstd::prelude::*;
use crate::identity::RowIdentity;

verus! {

/// The id under which an instance knows a post.
pub struct LemmyId {
    pub post_remote_id: i64,
    pub post_actor_id: String,
    pub instance_actor_id: String,
}

impl LemmyId {
    /// A field-for-field copy.
    pub fn duplicate(&self) -> (r: LemmyId)
        ensures
            r == *self,
    {
        LemmyId {
            post_remote_id: self.post_remote_id,
            post_actor_id: self.post_actor_id.clone(),
            instance_actor_id: self.instance_actor_id.clone(),
        }
    }
}

impl RowIdentity for LemmyId {
    type Key = Seq<Seq<char>>;

    /// Ids are told apart by post and instance; the remote id is not compared.
    open spec fn identity(&self) -> Seq<Seq<char>> {
        seq![self.post_actor_id@, self.instance_actor_id@]
    }

    fn same_identity(&self, other: &Self) -> (r: bool) {
        let r = self.post_actor_id == other.post_actor_id
            && self.instance_actor_id == other.instance_actor_id;
        assert(r ==> self.identity() =~= other.identity());
        assert(self.identity() == other.identity() ==> self.identity()[0] == other.identity()[0]
            && self.identity()[1] == other.identity()[1]);
        r
    }
}

/// Two ids are the same row exactly when their post actor ids and their
/// instance actor ids are equal; the remote id plays no part.
pub proof fn law_lemmy_id_identity(a: LemmyId, b: LemmyId)
    ensures
        a.identity() == b.identity() <==> (a.post_actor_id@ == b.post_actor_id@
            && a.instance_actor_id@ == b.instance_actor_id@),
{
    if a.identity() == b.identity() {
        assert(a.identity()[0] == b.identity()[0] && a.identity()[1] == b.identity()[1]);
    }
    if a.post_actor_id@ == b.post_actor_id@ && a.instance_actor_id@ == b.instance_actor_id@ {
        assert(a.identity() =~= b.identity());
    }
}

} // verus!
