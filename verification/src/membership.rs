use vstd::prelude::*;

verus! {

/// A user's relationship to the configured chat, as the platform reports it.
#[derive(Clone, Copy, Debug, PartialEq, Eq, Structural)]
pub enum MembershipStatus {
    Owner,
    Administrator,
    Member,
    Restricted,
    Left,
    Banned,
}

/// The statuses `Left`, `Banned` and `Restricted` deny access; every other
/// status (plain member, administrator, owner) grants it.
pub open spec fn grants_access(status: MembershipStatus) -> bool {
    !(status == MembershipStatus::Left || status == MembershipStatus::Banned
        || status == MembershipStatus::Restricted)
}

/// Membership gate: the access decision for a status the platform returned.
pub fn has_access(status: MembershipStatus) -> (granted: bool)
    ensures
        granted == grants_access(status),
{
    match status {
        MembershipStatus::Left => false,
        MembershipStatus::Banned => false,
        MembershipStatus::Restricted => false,
        _ => true,
    }
}

/// Membership gate when the lookup itself may have failed: a failed lookup
/// (`None`) denies access rather than aborting the dispatch path.
pub fn has_access_after_lookup(lookup: Option<MembershipStatus>) -> (granted: bool)
    ensures
        granted == (lookup matches Some(status) && grants_access(status)),
{
    match lookup {
        Some(status) => has_access(status),
        None => false,
    }
}

/// Exactly the statuses `Left`, `Banned` and `Restricted` are denied access;
/// all others are granted it.
pub proof fn lemma_access_by_status(status: MembershipStatus)
    ensures
        grants_access(status) <==> !(status == MembershipStatus::Left
            || status == MembershipStatus::Banned || status == MembershipStatus::Restricted),
{
}

} // verus!
