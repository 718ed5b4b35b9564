//! Group roles and access rules.
use vstd::prelude::*;

verus! {

/// Who may change a group attribute.
#[derive(Debug, Clone, Copy, PartialEq, Eq, Structural)]
pub enum AccessControl {
    Any,
    Administrator,
    Unsatisfiable,
}

/// A member's role in a group.
#[derive(Debug, Clone, Copy, PartialEq, Eq, Structural)]
pub enum MemberRole {
    Default,
    Administrator,
}

impl Default for MemberRole {
    fn default() -> (r: Self)
        ensures
            r == MemberRole::Default,
    {
        MemberRole::Default
    }
}

/// The store of groups; it keeps nothing yet.
pub struct GroupRepository {}

impl GroupRepository {
    pub fn new() -> (r: Self)
        ensures
            r == (GroupRepository {}),
    {
        GroupRepository {}
    }
}

} // verus!
