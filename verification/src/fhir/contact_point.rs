//! The contact point of a FHIR resource, as it is written to XML.

use vstd::prelude::*;

verus! {

/// A contact point: every part is optional.
#[derive(Debug, Clone, PartialEq, Eq)]
pub struct ContactPointDef {
    /// The kind of contact: phone, fax, email and so on.
    pub system: Option<String>,
    /// The contact itself.
    pub value: Option<String>,
    /// The purpose of the contact: home, work and so on.
    pub use_: Option<String>,
    /// The rank of the contact among several, 1 being the highest.
    pub rank: Option<usize>,
}

impl Default for ContactPointDef {
    /// A contact point with no part set.
    fn default() -> (point: ContactPointDef)
        ensures
            point.system is None,
            point.value is None,
            point.use_ is None,
            point.rank is None,
    {
        ContactPointDef { system: None, value: None, use_: None, rank: None }
    }
}

} // verus!
