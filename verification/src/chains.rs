use vstd::prelude::*;
use vstd::string::StringExecFns;
use vstd::utf8::{decode_utf8, valid_utf8};
use subxt::ext::codec::Decode;
use subxt::utils::MultiSignature;
use crate::errors::ClaimitError;
use crate::runtimes::support::SupportedRelayRuntime;
use crate::runtimes::utils::{decimal, decimal_text, storage_key_id, try_str};
use crate::types::accounts::{AccountId, Balance};
use crate::types::child_bounties::{ChildBountiesIds, ChildBounty, ChildBountyId, Status};
use crate::types::worker::UseLightClient;

verus! {

/// Where a child bounty stands on chain.
#[derive(Clone, Debug, PartialEq, Eq)]
pub enum ChildBountyStatus {
    Added,
    CuratorProposed,
    Active,
    /// The bounty was awarded and waits for its payout.
    PendingPayout { curator: AccountId, beneficiary: AccountId, unlock_at: u32 },
}

/// A child bounty as the chain stores it.
#[derive(Clone, Debug, PartialEq, Eq)]
pub struct StoredChildBounty {
    pub parent_bounty: u32,
    pub value: u128,
    pub status: ChildBountyStatus,
}

/// The id of a stored child bounty that is to be shown: one that waits
/// for its payout, under a key that ends in its id.
pub open spec fn shown_id(key: Seq<u8>, stored: StoredChildBounty) -> Option<u32> {
    if stored.status is PendingPayout && key.len() >= 4 {
        Some(storage_key_id(key) as u32)
    } else {
        None
    }
}

/// Tells whether a stored child bounty is to be shown, and under which
/// id its description is to be read.
pub fn pending_id(key: &Vec<u8>, stored: &StoredChildBounty) -> (r: Option<u32>)
    ensures
        r == shown_id(key@, *stored),
{
    match stored.status {
        ChildBountyStatus::PendingPayout { .. } => {
            let n = key.len();
            if n >= 4 {
                let b0: u32 = key[n - 4] as u32;
                let b1: u32 = key[n - 3] as u32;
                let b2: u32 = key[n - 2] as u32;
                let b3: u32 = key[n - 1] as u32;
                Some(b0 + b1 * 0x100 + b2 * 0x1_0000 + b3 * 0x100_0000)
            } else {
                None
            }
        },
        _ => None,
    }
}

/// The description of a child bounty from what the chain stores of it:
/// the text that the bytes encode, empty where nothing is stored.
pub open spec fn description_text(stored: Option<Vec<u8>>) -> Option<Seq<char>> {
    match stored {
        Some(bytes) => if valid_utf8(bytes@) {
            Some(decode_utf8(bytes@))
        } else {
            None
        },
        None => Some(Seq::empty()),
    }
}

/// Makes the child bounty to show from what the chain stores under `id`:
/// the record, its description and the name of its beneficiary. Nothing
/// is made of a record that does not wait for its payout; a description
/// that is not UTF-8 is an error.
pub fn child_bounty_from(
    id: ChildBountyId,
    stored: StoredChildBounty,
    description: Option<Vec<u8>>,
    beneficiary_identity: Option<String>,
) -> (r: Result<Option<ChildBounty>, ClaimitError>)
    ensures
        match stored.status {
            ChildBountyStatus::PendingPayout { curator, beneficiary, unlock_at } => match description_text(
                description,
            ) {
                Some(text) => r matches Ok(Some(bounty)) && {
                    &&& bounty.id == id
                    &&& bounty.parent_id == stored.parent_bounty
                    &&& bounty.description@ == text
                    &&& bounty.value == stored.value
                    &&& bounty.status == Status::Pending
                    &&& bounty.beneficiary == beneficiary
                    &&& bounty.beneficiary_identity == beneficiary_identity
                    &&& bounty.unlock_at == unlock_at
                },
                None => r matches Err(ClaimitError::Other(message)) && message@
                    == "Data not utf-8"@,
            },
            _ => r == Ok::<Option<ChildBounty>, ClaimitError>(None),
        },
{
    match stored.status {
        ChildBountyStatus::PendingPayout { curator: _, beneficiary, unlock_at } => {
            let text = match description {
                Some(bytes) => match try_str(bytes) {
                    Some(text) => text,
                    None => {
                        return Err(ClaimitError::other("Data not utf-8"));
                    },
                },
                None => String::new(),
            };
            Ok(
                Some(
                    ChildBounty {
                        id,
                        parent_id: stored.parent_bounty,
                        description: text,
                        value: stored.value,
                        status: Status::Pending,
                        beneficiary,
                        beneficiary_identity,
                        unlock_at,
                    },
                ),
            )
        },
        _ => Ok(None),
    }
}

pub const NO_BALANCE_MESSAGE: &'static str = "balance could not be retrieved";

/// The balance of an account from what the chain stores of it: what is
/// free and what is reserved. An account of which nothing is stored is
/// an error.
pub fn balance_from(stored: Option<(u128, u128)>) -> (r: Result<Balance, ClaimitError>)
    ensures
        match stored {
            Some((free, reserved)) => r == Ok::<Balance, ClaimitError>(Balance { free, reserved }),
            None => r matches Err(ClaimitError::Other(message)) && message@ == NO_BALANCE_MESSAGE@,
        },
{
    match stored {
        Some((free, reserved)) => Ok(Balance { free, reserved }),
        None => Err(ClaimitError::other(NO_BALANCE_MESSAGE)),
    }
}

/// A call in the batch that claims.
#[derive(Clone, Debug, PartialEq, Eq)]
pub enum ClaimCall {
    /// Pays out a child bounty.
    ClaimChildBounty { parent_bounty_id: u32, child_bounty_id: u32 },
    /// Leaves a remark; stands in for a claim on the test network.
    RemarkWithEvent(Vec<u8>),
}

/// Whether claims on a chain are only rehearsed: on the test network a
/// remark stands in for each claim, so that testing does not use up the
/// bounties there.
pub open spec fn is_rehearsal(runtime: SupportedRelayRuntime) -> bool {
    runtime == SupportedRelayRuntime::Paseo
}

/// The remark that stands in for a claim: the bytes of "test".
pub open spec fn rehearsal_remark() -> Seq<u8> {
    seq![0x74u8, 0x65u8, 0x73u8, 0x74u8]
}

/// Whether a call is the one that the batch holds for a pair of ids.
pub open spec fn is_call_for(call: ClaimCall, runtime: SupportedRelayRuntime, pair: (u32, u32)) -> bool {
    if is_rehearsal(runtime) {
        call matches ClaimCall::RemarkWithEvent(remark) && remark@ == rehearsal_remark()
    } else {
        call == (ClaimCall::ClaimChildBounty { parent_bounty_id: pair.0, child_bounty_id: pair.1 })
    }
}

/// The calls of the batch that claims the given child bounties: one for
/// each pair of parent and child id, in their order.
pub fn batch_calls(runtime: SupportedRelayRuntime, ids: &ChildBountiesIds) -> (r: Vec<ClaimCall>)
    ensures
        r@.len() == ids@.len(),
        forall|i: int| 0 <= i < r@.len() ==> is_call_for(#[trigger] r@[i], runtime, ids@[i]),
{
    let mut out: Vec<ClaimCall> = Vec::new();
    let mut i: usize = 0;
    while i < ids.len()
        invariant
            i <= ids.len(),
            out@.len() == i,
            forall|j: int| 0 <= j < i ==> is_call_for(#[trigger] out@[j], runtime, ids@[j]),
        decreases ids.len() - i,
    {
        let (parent_bounty_id, child_bounty_id) = ids[i];
        match runtime {
            SupportedRelayRuntime::Paseo => {
                let mut remark: Vec<u8> = Vec::new();
                remark.push(0x74);
                remark.push(0x65);
                remark.push(0x73);
                remark.push(0x74);
                assert(remark@ =~= rehearsal_remark());
                out.push(ClaimCall::RemarkWithEvent(remark));
            },
            _ => {
                out.push(ClaimCall::ClaimChildBounty { parent_bounty_id, child_bounty_id });
            },
        }
        i += 1;
    }
    out
}

/// The schemes of the signatures that a chain accepts.
#[derive(Clone, Copy, Debug, PartialEq, Eq, Structural)]
pub enum SignatureScheme {
    Ed25519,
    Sr25519,
    Ecdsa,
}

/// The signature that bytes hold in the chain's encoding of a signature
/// of one of several schemes: the scheme and the signature's own bytes.
pub uninterp spec fn multi_signature(bytes: Seq<u8>) -> Option<(SignatureScheme, Seq<u8>)>;

/// `MultiSignature::decode` of subxt, on the bytes given.
#[verifier::external_body]
fn decode_multi_signature(bytes: &Vec<u8>) -> (r: Option<(SignatureScheme, Vec<u8>)>)
    ensures
        multi_signature(bytes@) == match r {
            Some((scheme, raw)) => Some((scheme, raw@)),
            None => None,
        },
{
    match MultiSignature::decode(&mut &bytes[..]) {
        Ok(MultiSignature::Ed25519(raw)) => Some((SignatureScheme::Ed25519, raw.to_vec())),
        Ok(MultiSignature::Sr25519(raw)) => Some((SignatureScheme::Sr25519, raw.to_vec())),
        Ok(MultiSignature::Ecdsa(raw)) => Some((SignatureScheme::Ecdsa, raw.to_vec())),
        Err(_) => None,
    }
}

pub const BAD_SIGNATURE_MESSAGE: &'static str = "MultiSignature decoding failed";

/// Reads the signature that a wallet gave. Bytes that hold no signature
/// are an error.
pub fn read_signature(bytes: &Vec<u8>) -> (r: Result<(SignatureScheme, Vec<u8>), ClaimitError>)
    ensures
        match r {
            Ok((scheme, raw)) => multi_signature(bytes@) == Some((scheme, raw@)),
            Err(error) => multi_signature(bytes@) is None && (error matches ClaimitError::Other(
                message,
            ) && message@ == BAD_SIGNATURE_MESSAGE@),
        },
{
    match decode_multi_signature(bytes) {
        Some(signature) => Ok(signature),
        None => Err(ClaimitError::other(BAD_SIGNATURE_MESSAGE)),
    }
}

/// An event of the block that holds the transaction.
#[derive(Clone, Copy, Debug, PartialEq, Eq, Structural)]
pub enum TxEvent {
    /// A child bounty was paid out.
    Claimed(u32),
    BatchCompleted,
    BatchCompletedWithErrors,
    ExtrinsicSuccess,
    ExtrinsicFailed,
    /// A remark was left; seen on the test network only.
    Remarked,
    Other,
}

/// What the node reports of a submitted transaction.
#[derive(Clone, Debug, PartialEq, Eq)]
pub enum TxStatus {
    /// The transaction is in a finalized block with these events.
    InFinalizedBlock(Vec<TxEvent>),
    Error(String),
    Invalid(String),
    Dropped(String),
    /// Any report that is no end: validated, broadcast, in a best block.
    Pending,
}

/// How the events of the finalized block end the watch.
pub enum BlockOutcome {
    /// The transaction succeeded and paid out these child bounties.
    Success(Seq<u32>),
    /// The transaction failed.
    Failed,
    /// The events tell neither.
    Unknown,
}

/// Reads the events in order, `claimed` being what was paid out before
/// them: every payout is noted, and the first event that tells success
/// or failure decides.
pub open spec fn outcome_from(events: Seq<TxEvent>, claimed: Seq<u32>) -> BlockOutcome
    decreases events.len(),
{
    if events.len() == 0 {
        BlockOutcome::Unknown
    } else {
        match events.first() {
            TxEvent::Claimed(id) => outcome_from(events.drop_first(), claimed.push(id)),
            TxEvent::ExtrinsicSuccess => BlockOutcome::Success(claimed),
            TxEvent::ExtrinsicFailed => BlockOutcome::Failed,
            _ => outcome_from(events.drop_first(), claimed),
        }
    }
}

/// What is said of a transaction that failed in a block.
pub open spec fn failed_text(block_number: u32, extrinsic_hash: Seq<char>) -> Seq<char> {
    "ExtrinsicFailed at block "@ + decimal_text(block_number as nat) + " extrinsic "@
        + extrinsic_hash
}

pub const UNKNOWN_OUTCOME_MESSAGE: &'static str = "An unexpected error occurred";

pub const NO_STATUS_MESSAGE: &'static str = "transaction status not available";

/// What a report of the node means for the watch.
#[derive(Debug, PartialEq, Eq)]
pub enum Watch {
    /// Nothing yet: wait for the next report.
    Continue,
    /// The watch is over: the child bounties paid out, or the failure.
    Done(Result<Vec<ChildBountyId>, ClaimitError>),
}

/// Takes a report of the node on the submitted transaction. Once the
/// transaction is in a finalized block, that block's events decide:
/// success ends the watch with the child bounties paid out before it,
/// failure with an error that names block and transaction, and events
/// that tell neither with an error too. A report that the transaction is
/// in error, invalid or dropped ends the watch with that report's
/// message. Any other report lets the watch go on.
#[verifier::loop_isolation(false)]
pub fn on_tx_status(status: TxStatus, block_number: u32, extrinsic_hash: &str) -> (r: Watch)
    ensures
        match status {
            TxStatus::InFinalizedBlock(events) => match outcome_from(events@, Seq::empty()) {
                BlockOutcome::Success(claimed) => r matches Watch::Done(Ok(ids)) && ids@ == claimed,
                BlockOutcome::Failed => r matches Watch::Done(Err(ClaimitError::Other(message)))
                    && message@ == failed_text(block_number, extrinsic_hash@),
                BlockOutcome::Unknown => r matches Watch::Done(Err(ClaimitError::Other(message)))
                    && message@ == UNKNOWN_OUTCOME_MESSAGE@,
            },
            TxStatus::Error(text) => r == Watch::Done(Err(ClaimitError::Other(text))),
            TxStatus::Invalid(text) => r == Watch::Done(Err(ClaimitError::Other(text))),
            TxStatus::Dropped(text) => r == Watch::Done(Err(ClaimitError::Other(text))),
            TxStatus::Pending => r == Watch::Continue,
        },
{
    match status {
        TxStatus::InFinalizedBlock(events) => {
            let mut claimed: Vec<ChildBountyId> = Vec::new();
            let mut i: usize = 0;
            proof {
                assert(events@.skip(0) =~= events@);
            }
            while i < events.len()
                invariant
                    i <= events.len(),
                    outcome_from(events@, Seq::empty()) == outcome_from(
                        events@.skip(i as int),
                        claimed@,
                    ),
                decreases events.len() - i,
            {
                proof {
                    assert(events@.skip(i as int).drop_first() =~= events@.skip(i + 1));
                    assert(events@.skip(i as int).first() == events@[i as int]);
                }
                match events[i] {
                    TxEvent::Claimed(id) => {
                        claimed.push(id);
                    },
                    TxEvent::ExtrinsicSuccess => {
                        return Watch::Done(Ok(claimed));
                    },
                    TxEvent::ExtrinsicFailed => {
                        let mut message = String::from_str("ExtrinsicFailed at block ");
                        let number = decimal(block_number as u128);
                        message.append(number.as_str());
                        message.append(" extrinsic ");
                        message.append(extrinsic_hash);
                        return Watch::Done(Err(ClaimitError::Other(message)));
                    },
                    _ => {},
                }
                i += 1;
            }
            Watch::Done(Err(ClaimitError::other(UNKNOWN_OUTCOME_MESSAGE)))
        },
        TxStatus::Error(text) => Watch::Done(Err(ClaimitError::Other(text))),
        TxStatus::Invalid(text) => Watch::Done(Err(ClaimitError::Other(text))),
        TxStatus::Dropped(text) => Watch::Done(Err(ClaimitError::Other(text))),
        TxStatus::Pending => Watch::Continue,
    }
}

/// What ends a watch whose reports ran out before any of them ended it.
pub fn on_tx_stream_end() -> (r: ClaimitError)
    ensures
        r matches ClaimitError::Other(message) && message@ == NO_STATUS_MESSAGE@,
{
    ClaimitError::other(NO_STATUS_MESSAGE)
}

/// How the worker's clients connect.
#[derive(Clone, Debug, PartialEq, Eq)]
pub enum ConnectionPlan {
    /// Through the light client: the relay chain first, then the people
    /// chain as one of its parachains.
    LightClient(SupportedRelayRuntime),
    /// To the default RPC endpoints of the relay chain and of the people
    /// chain.
    Rpc(&'static str, &'static str),
}

pub fn create_api_clients(runtime: SupportedRelayRuntime, use_light_client: UseLightClient) -> (r:
    ConnectionPlan)
    ensures
        match r {
            ConnectionPlan::LightClient(chain) => use_light_client && chain == runtime,
            ConnectionPlan::Rpc(relay, people) => !use_light_client && relay@
                == runtime.spec_default_rpc_url() && people@
                == runtime.spec_default_people_rpc_url(),
        },
{
    if use_light_client {
        ConnectionPlan::LightClient(runtime)
    } else {
        ConnectionPlan::Rpc(runtime.default_rpc_url(), runtime.default_people_rpc_url())
    }
}

} // verus!
