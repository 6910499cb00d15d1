//! The service an XSTS ticket is scoped to.
use vstd::prelude::*;

use vstd::std_specs::cmp::PartialEqSpec;

use crate::util::text::str_eq;

verus! {

/// The service an XSTS ticket is scoped to.
///
/// Xbox Live issues distinct XSTS tickets per relying party — a ticket minted for Xbox Live
/// itself cannot be used against a third-party service's API, and vice versa.
#[derive(Debug, Clone, Copy, Eq, Hash)]
pub struct RelyingParty {
    uri: &'static str,
}

/// The relying-party URI of Xbox Live itself.
pub const XBOX_URI: &'static str = "http://xboxlive.com";

impl RelyingParty {
    /// Xbox Live itself (e.g. the people-search/profile APIs).
    pub fn xbox() -> (r: Self)
        ensures
            r.uri() == XBOX_URI@,
    {
        RelyingParty { uri: XBOX_URI }
    }

    /// The relying-party URI.
    pub closed spec fn uri(&self) -> Seq<char> {
        self.uri@
    }

    /// Creates a relying party owned by the downstream service that defines its URI.
    pub fn new(uri: &'static str) -> (r: Self)
        ensures
            r.uri() == uri@,
    {
        RelyingParty { uri }
    }

    /// The relying-party URI Xbox Live's XSTS endpoint expects.
    pub fn as_str(&self) -> (r: &'static str)
        ensures
            r@ == self.uri(),
    {
        self.uri
    }
}

/// Relying parties are compared by their URIs' characters.
impl PartialEq for RelyingParty {
    fn eq(&self, other: &Self) -> (r: bool) {
        str_eq(self.uri, other.uri)
    }
}

impl vstd::std_specs::cmp::PartialEqSpecImpl for RelyingParty {
    open spec fn obeys_eq_spec() -> bool {
        true
    }

    open spec fn eq_spec(&self, other: &Self) -> bool {
        self.uri() == other.uri()
    }
}

/// Two relying parties are equal exactly when their URIs hold the same characters: one made
/// with [`RelyingParty::new`] from Xbox Live's URI is Xbox Live itself.
pub proof fn lemma_relying_parties_equal_by_uri(a: RelyingParty, b: RelyingParty)
    ensures
        a.eq_spec(&b) <==> a.uri() == b.uri(),
        a.uri() == XBOX_URI@ ==> (a.eq_spec(&b) <==> b.uri() == XBOX_URI@),
{
}

} // verus!
