use vstd::prelude::*;
use vstd::string::StringExecFns;
use crate::types::child_bounties::ChildBountiesIds;

verus! {

/// Where a claim stands.
#[derive(Clone, Debug, PartialEq, Eq)]
pub enum ClaimStatus {
    /// The claim was opened.
    Initializing,
    /// The payload to sign is being built.
    Preparing,
    /// The payload waits for the wallet's signature.
    Signing(String),
    /// The signed transaction is being submitted and watched.
    Submitting(Vec<u8>),
    /// The transaction is final.
    Completed,
    Error(String),
}

impl ClaimStatus {
    pub open spec fn spec_name(self) -> Seq<char> {
        match self {
            Self::Initializing => "Initializing"@,
            Self::Preparing => "Preparing"@,
            Self::Signing(_) => "Signing"@,
            Self::Submitting(_) => "Submitting"@,
            Self::Completed => "Completed"@,
            Self::Error(_) => "Error"@,
        }
    }

    pub fn to_string(&self) -> (r: String)
        ensures
            r@ == self.spec_name(),
    {
        match self {
            Self::Initializing => String::from_str("Initializing"),
            Self::Preparing => String::from_str("Preparing"),
            Self::Signing(_) => String::from_str("Signing"),
            Self::Submitting(_) => String::from_str("Submitting"),
            Self::Completed => String::from_str("Completed"),
            Self::Error(_) => String::from_str("Error"),
        }
    }

    /// Whether the claim flow may move from this status to `next`: forward
    /// one stage at a time, to an error from any stage that does outside
    /// work, and from an error back to preparing.
    pub open spec fn spec_may_become(self, next: ClaimStatus) -> bool {
        match (self, next) {
            (Self::Initializing, Self::Preparing) => true,
            (Self::Preparing, Self::Signing(_)) => true,
            (Self::Signing(_), Self::Submitting(_)) => true,
            (Self::Submitting(_), Self::Completed) => true,
            (Self::Preparing, Self::Error(_)) => true,
            (Self::Signing(_), Self::Error(_)) => true,
            (Self::Submitting(_), Self::Error(_)) => true,
            (Self::Error(_), Self::Preparing) => true,
            _ => false,
        }
    }

    pub fn may_become(&self, next: &ClaimStatus) -> (r: bool)
        ensures
            r == self.spec_may_become(*next),
    {
        match (self, next) {
            (Self::Initializing, Self::Preparing) => true,
            (Self::Preparing, Self::Signing(_)) => true,
            (Self::Signing(_), Self::Submitting(_)) => true,
            (Self::Submitting(_), Self::Completed) => true,
            (Self::Preparing, Self::Error(_)) => true,
            (Self::Signing(_), Self::Error(_)) => true,
            (Self::Submitting(_), Self::Error(_)) => true,
            (Self::Error(_), Self::Preparing) => true,
            _ => false,
        }
    }
}

/// A claim in progress.
#[derive(Clone, Debug, PartialEq, Eq)]
pub struct ClaimState {
    /// The child bounties claimed together.
    pub child_bounty_ids: ChildBountiesIds,
    pub status: ClaimStatus,
}

impl ClaimState {
    pub fn new(child_bounty_ids: ChildBountiesIds) -> (r: Self)
        ensures
            r.child_bounty_ids == child_bounty_ids,
            r.status == ClaimStatus::Initializing,
    {
        Self { child_bounty_ids, status: ClaimStatus::Initializing }
    }

    pub fn is_initializing(&self) -> (r: bool)
        ensures
            r == (self.status is Initializing),
    {
        match self.status {
            ClaimStatus::Initializing => true,
            _ => false,
        }
    }

    pub fn is_signing_or_submitting(&self) -> (r: bool)
        ensures
            r == (self.status is Signing || self.status is Submitting),
    {
        match self.status {
            ClaimStatus::Signing(_) | ClaimStatus::Submitting(_) => true,
            _ => false,
        }
    }

    pub fn is_error(&self) -> (r: bool)
        ensures
            r == (self.status is Error),
    {
        match self.status {
            ClaimStatus::Error(_) => true,
            _ => false,
        }
    }
}

} // verus!
