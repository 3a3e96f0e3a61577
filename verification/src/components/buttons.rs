use vstd::prelude::*;
use vstd::string::StringExecFns;
use crate::router::Query;
use crate::runtimes::support::SupportedRelayRuntime;
use crate::runtimes::utils::{decimal, decimal_text};
use crate::state::{Action, ActionView, State, StateView};
use crate::types::accounts::{following, following_of, AccountId};
use crate::types::child_bounties::{
    entries, ordered_entries, owned_entries, ChildBountiesIds, ChildBounty,
};
use crate::types::network::NetworkStatus;

verus! {

/// Whether a bounty can be claimed for a followed account: it is
/// claimable at the block and its beneficiary is followed.
pub open spec fn is_due(child_bounty: ChildBounty, followed: Seq<AccountId>, block: u32) -> bool {
    child_bounty.spec_is_claimable(block) && followed.contains(child_bounty.beneficiary)
}

pub fn due(child_bounty: &ChildBounty, followed: &Vec<AccountId>, block: u32) -> (r: bool)
    ensures
        r == is_due(*child_bounty, followed@, block),
{
    if !child_bounty.is_claimable(block) {
        return false;
    }
    let mut i: usize = 0;
    while i < followed.len()
        invariant
            i <= followed.len(),
            child_bounty.spec_is_claimable(block),
            forall|j: int| 0 <= j < i ==> followed@[j] != child_bounty.beneficiary,
        decreases followed.len() - i,
    {
        if followed[i].same(&child_bounty.beneficiary) {
            assert(followed@[i as int] == child_bounty.beneficiary);
            return true;
        }
        i += 1;
    }
    false
}

/// Parent and child id of the listed bounties that are due, in order.
pub open spec fn due_pairs(all: Seq<(u32, ChildBounty)>, followed: Seq<AccountId>, block: u32) -> Seq<
    (u32, u32),
>
    decreases all.len(),
{
    if all.len() == 0 {
        Seq::empty()
    } else {
        let rest = due_pairs(all.drop_last(), followed, block);
        let last = all.last().1;
        if is_due(last, followed, block) {
            rest.push((last.parent_id, last.id))
        } else {
            rest
        }
    }
}

/// The bounties that the button would claim: parent and child id of
/// every cached bounty that is claimable at the latest finalized block
/// for a followed account, by ascending key. None without the cache or
/// the block.
pub open spec fn claimable_now(state: StateView) -> Seq<(u32, u32)> {
    match (state.network.finalized_block_number, state.child_bounties_raw) {
        (Some(block), Some(bounties)) => due_pairs(
            ordered_entries(bounties),
            following(state.accounts),
            block,
        ),
        _ => Seq::empty(),
    }
}

pub fn claimable_pairs(state: &State) -> (r: ChildBountiesIds)
    ensures
        r@ == claimable_now(state@),
{
    let mut out: ChildBountiesIds = Vec::new();
    match (state.network.finalized_block_number, &state.child_bounties_raw) {
        (Some(block), Some(bounties)) => {
            let followed = following_of(&state.accounts);
            let listed = entries(bounties);
            let ghost all = ordered_entries(bounties@);
            let mut i: usize = 0;
            proof {
                assert(all.take(0) =~= Seq::empty());
            }
            while i < listed.len()
                invariant
                    i <= listed.len(),
                    owned_entries(listed@) == all,
                    out@ == due_pairs(all.take(i as int), followed@, block),
                decreases listed.len() - i,
            {
                let (_, bounty) = listed[i];
                proof {
                    assert(all.take(i + 1).drop_last() =~= all.take(i as int));
                    assert(all.take(i + 1).last().1 == *bounty);
                }
                if due(bounty, &followed, block) {
                    out.push((bounty.parent_id, bounty.id));
                }
                i += 1;
            }
            proof {
                assert(all.take(all.len() as int) =~= all);
            }
            out
        },
        _ => out,
    }
}

/// The button that claims.
#[derive(Clone, Debug, PartialEq, Eq)]
pub struct ClaimButtonView {
    /// The button shows while there is something to claim.
    pub visible: bool,
    /// How many bounties it would claim.
    pub badge: usize,
    /// What pressing it asks for.
    pub action: Action,
}

/// The button that claims: it shows while at least one cached bounty is
/// claimable for a followed account, counts those bounties, and opens a
/// claim for them when pressed.
pub fn claim_button(state: &State) -> (r: ClaimButtonView)
    ensures
        r.visible == (claimable_now(state@).len() > 0),
        r.badge == claimable_now(state@).len(),
        r.action matches Action::StartClaim(ids) && ids@ == claimable_now(state@),
{
    let pairs = claimable_pairs(state);
    ClaimButtonView { visible: pairs.len() > 0, badge: pairs.len(), action: Action::StartClaim(pairs) }
}

/// Address of a child bounty at Subsquare.
pub open spec fn subsquare_url(runtime: SupportedRelayRuntime, id: u32) -> Seq<char> {
    "https://"@ + runtime.spec_class() + ".subsquare.io/treasury/child-bounties/"@ + decimal_text(
        id as nat,
    )
}

/// Address of a child bounty at Polkassembly.
pub open spec fn polkassembly_url(runtime: SupportedRelayRuntime, id: u32) -> Seq<char> {
    "https://"@ + runtime.spec_class() + ".polkassembly.io/child_bounty/"@ + decimal_text(id as nat)
}

pub fn subsquare_link(runtime: SupportedRelayRuntime, id: u32) -> (r: String)
    ensures
        r@ == subsquare_url(runtime, id),
{
    let mut out = String::from_str("https://");
    let class = runtime.class();
    out.append(class.as_str());
    out.append(".subsquare.io/treasury/child-bounties/");
    let number = decimal(id as u128);
    out.append(number.as_str());
    out
}

pub fn polkassembly_link(runtime: SupportedRelayRuntime, id: u32) -> (r: String)
    ensures
        r@ == polkassembly_url(runtime, id),
{
    let mut out = String::from_str("https://");
    let class = runtime.class();
    out.append(class.as_str());
    out.append(".polkassembly.io/child_bounty/");
    let number = decimal(id as u128);
    out.append(number.as_str());
    out
}

/// The chain that the switch in the footer leads to: Kusama from
/// Polkadot, Polkadot from the others.
pub open spec fn switch_target(selected: SupportedRelayRuntime) -> SupportedRelayRuntime {
    match selected {
        SupportedRelayRuntime::Polkadot => SupportedRelayRuntime::Kusama,
        SupportedRelayRuntime::Kusama => SupportedRelayRuntime::Polkadot,
        SupportedRelayRuntime::Paseo => SupportedRelayRuntime::Polkadot,
    }
}

/// The switch between chains.
#[derive(Clone, Debug, PartialEq, Eq)]
pub struct NetworkSwitchView {
    pub target: SupportedRelayRuntime,
    pub label: &'static str,
    pub disabled: bool,
}

/// The switch between chains as the footer shows it. It cannot be pressed
/// while the network initializes.
pub fn network_subscriber(selected: SupportedRelayRuntime, state: &State) -> (r: NetworkSwitchView)
    ensures
        r.target == switch_target(selected),
        r.label@ == if switch_target(selected) == SupportedRelayRuntime::Kusama {
            "Switch to Kusama"@
        } else {
            "Switch to Polkadot"@
        },
        r.disabled == (state.network.status == NetworkStatus::Initializing),
{
    let disabled = state.network.is_initializing();
    match selected {
        SupportedRelayRuntime::Polkadot => NetworkSwitchView {
            target: SupportedRelayRuntime::Kusama,
            label: "Switch to Kusama",
            disabled,
        },
        _ => NetworkSwitchView {
            target: SupportedRelayRuntime::Polkadot,
            label: "Switch to Polkadot",
            disabled,
        },
    }
}

/// The query that the address bar gets when the chain is switched: the
/// new chain, the kind of connection kept, no bounties.
pub fn query_after_switch(current: &Query, chain: SupportedRelayRuntime) -> (r: Query)
    ensures
        r.chain == chain,
        r.lc == current.lc,
        r.bounties@.len() == 0,
{
    Query { chain, lc: current.lc, bounties: Vec::new() }
}

/// The query that the address bar gets when the provider is toggled: the
/// chain kept, the other kind of connection, no bounties.
pub fn query_after_toggle(current: &Query) -> (r: Query)
    ensures
        r.chain == current.chain,
        r.lc == !current.lc,
        r.bounties@.len() == 0,
{
    Query { chain: current.chain, lc: !current.lc, bounties: Vec::new() }
}

/// The button that toggles the provider.
#[derive(Clone, Debug, PartialEq, Eq)]
pub struct ProviderButtonView {
    /// What the connection goes through, as the tooltip says it.
    pub tooltip: &'static str,
    /// Whether the icon of the light client shows, and not that of RPC.
    pub light_client: bool,
    /// Style class that colours the icon by the network status.
    pub color: &'static str,
}

pub fn network_provider_icon_button(state: &State) -> (r: ProviderButtonView)
    ensures
        r.tooltip@ == if state.network.use_light_client_as_network_provider {
            "Connected via light client"@
        } else {
            "Connected via RPC (IBP provider)"@
        },
        r.light_client == state.network.use_light_client_as_network_provider,
        r.color@ == state.network.status.spec_text_class(),
{
    ProviderButtonView {
        tooltip: state.network.provider_description(),
        light_client: state.network.is_ligh_client(),
        color: state.network.status.text_class(),
    }
}

/// What pressing the button that adds an account asks for.
pub fn add_account_pressed() -> (r: Action)
    ensures
        r@ == ActionView::ToggleLayoutAddAccountModal,
{
    Action::ToggleLayoutAddAccountModal
}

} // verus!
