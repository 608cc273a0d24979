//! Identifiers of ensigns.

use vstd::prelude::*;

use crate::text::{dashed, lowercase_of, push_dashed, to_lowercase};

verus! {

/// Unique identifier for an ensign agent.
#[derive(Debug, Clone, Hash, PartialEq, Eq)]
pub struct EnsignId(String);

impl View for EnsignId {
    type V = Seq<char>;

    closed spec fn view(&self) -> Seq<char> {
        self.0@
    }
}

/// The identifier that an ensign of the given name carries: `ensign-`, then the
/// lower-cased name with every space turned into a dash.
pub open spec fn id_for_name(name: Seq<char>) -> Seq<char> {
    id_for_lowercase(lowercase_of(name))
}

/// The identifier for a name that is already lower-cased.
pub open spec fn id_for_lowercase(lower: Seq<char>) -> Seq<char> {
    "ensign-"@ + dashed(lower)
}

impl EnsignId {
    pub fn new(id: &str) -> (r: Self)
        ensures
            r@ == id@,
    {
        EnsignId(id.to_owned())
    }

    pub fn as_str(&self) -> (r: &str)
        ensures
            r@ == self@,
    {
        self.0.as_str()
    }

    /// The identifier as text, as it is displayed.
    pub fn to_string(&self) -> (r: String)
        ensures
            r@ == self@,
    {
        self.0.clone()
    }

    /// The identifier built from a name that is already lower-cased.
    pub fn from_lowercase_name(lower: &str) -> (r: Self)
        ensures
            r@ == id_for_lowercase(lower@),
    {
        let mut s = String::from_str("ensign-");
        proof {
            reveal_strlit("ensign-");
        }
        push_dashed(&mut s, lower);
        EnsignId(s)
    }

    /// The identifier of an ensign with the given name.
    pub fn for_name(name: &str) -> (r: Self)
        ensures
            r@ == id_for_name(name@),
    {
        let lower = to_lowercase(name);
        Self::from_lowercase_name(lower.as_str())
    }
}

} // verus!
