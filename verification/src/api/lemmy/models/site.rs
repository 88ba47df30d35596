use vstd::prelude::*;

verus! {

/// A site as an instance describes itself.
pub struct Site {
    pub name: String,
    pub actor_id: String,
}

/// The answer of an instance's site endpoint.
pub struct SiteView {
    pub site: Site,
}

} // verus!
