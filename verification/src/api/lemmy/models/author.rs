use vstd::prelude::*;
use crate::database::schema::copy_optional_text;
use crate::identity::RowIdentity;

verus! {

/// The author of a post.
pub struct Author {
    pub actor_id: String,
    pub avatar: Option<String>,
    pub name: String,
    pub display_name: Option<String>,
}

impl Author {
    /// A field-for-field copy.
    pub fn duplicate(&self) -> (r: Author)
        ensures
            r == *self,
    {
        Author {
            actor_id: self.actor_id.clone(),
            avatar: copy_optional_text(&self.avatar),
            name: self.name.clone(),
            display_name: copy_optional_text(&self.display_name),
        }
    }
}

impl RowIdentity for Author {
    type Key = Seq<Seq<char>>;

    /// Authors are told apart by their actor id.
    open spec fn identity(&self) -> Seq<Seq<char>> {
        seq![self.actor_id@]
    }

    fn same_identity(&self, other: &Self) -> (r: bool) {
        let r = self.actor_id == other.actor_id;
        assert(r ==> self.identity() =~= other.identity());
        assert(self.identity() == other.identity() ==> self.identity()[0] == other.identity()[0]);
        r
    }
}

/// Two authors are the same row exactly when their actor ids are equal: the
/// name, avatar and display name play no part.
pub proof fn law_author_identity(a: Author, b: Author)
    ensures
        a.identity() == b.identity() <==> a.actor_id@ == b.actor_id@,
{
    if a.identity() == b.identity() {
        assert(a.identity()[0] == b.identity()[0]);
    }
    if a.actor_id@ == b.actor_id@ {
        assert(a.identity() =~= b.identity());
    }
}

} // verus!
