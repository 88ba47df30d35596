use vstd::prelude::*;
use crate::database::schema::copy_optional_text;
use crate::identity::RowIdentity;

verus! {

/// A community as an instance reports it.
pub struct Community {
    pub actor_id: String,
    pub icon: Option<String>,
    pub name: String,
    pub title: Option<String>,
}

impl Community {
    /// A field-for-field copy.
    pub fn duplicate(&self) -> (r: Community)
        ensures
            r == *self,
    {
        Community {
            actor_id: self.actor_id.clone(),
            icon: copy_optional_text(&self.icon),
            name: self.name.clone(),
            title: copy_optional_text(&self.title),
        }
    }
}

impl RowIdentity for Community {
    type Key = Seq<Seq<char>>;

    /// Communities are told apart by their actor id.
    open spec fn identity(&self) -> Seq<Seq<char>> {
        seq![self.actor_id@]
    }

    fn same_identity(&self, other: &Self) -> (r: bool) {
        let r = self.actor_id == other.actor_id;
        assert(r ==> self.identity() =~= other.identity());
        assert(self.identity() == other.identity() ==> self.identity()[0] == other.identity()[0]);
        r
    }
}

/// Two communities are the same row exactly when their actor ids are equal: the
/// name, icon and title play no part.
pub proof fn law_community_identity(a: Community, b: Community)
    ensures
        a.identity() == b.identity() <==> a.actor_id@ == b.actor_id@,
{
    if a.identity() == b.identity() {
        assert(a.identity()[0] == b.identity()[0]);
    }
    if a.actor_id@ == b.actor_id@ {
        assert(a.identity() =~= b.identity());
    }
}

} // verus!
