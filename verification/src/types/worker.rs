use vstd::prelude::*;
use crate::runtimes::support::SupportedRelayRuntime;
use crate::types::accounts::{AccountId, Balance};
use crate::types::child_bounties::{ChildBounties, ChildBountiesIds};
use crate::types::network::SubscriptionId;

verus! {

pub type BlockNumber = u32;

/// SS58 address of the account that signs.
pub type SignerAddress = String;

/// Whether the worker connects through the light client.
pub type UseLightClient = bool;

/// What the application asks of the network worker.
#[derive(Clone, Debug, PartialEq, Eq)]
pub enum Input {
    Start(SubscriptionId, SupportedRelayRuntime, UseLightClient),
    FetchChildBounties,
    FetchAccountBalance(AccountId),
    FetchAccountIdentity(AccountId),
    CreatePayloadTx(ChildBountiesIds, SignerAddress),
    SignAndSubmitTx(ChildBountiesIds, SignerAddress, Vec<u8>),
    Finish,
}

/// What the network worker reports back.
#[derive(Clone, Debug, PartialEq, Eq)]
pub enum Output {
    Active(SubscriptionId),
    BlockNumber(SubscriptionId, BlockNumber),
    ChildBounties(ChildBounties),
    AccountBalance(AccountId, Balance),
    AccountIdentity(AccountId, Option<String>),
    TxPayload(String),
    TxCompleted(Vec<u32>),
    /// The session with the given id lost its connection.
    Failed(SubscriptionId),
}

} // verus!
