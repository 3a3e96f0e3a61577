use vstd::prelude::*;
use vstd::string::StringExecFns;
use crate::components::buttons::{
    due, is_due, polkassembly_link, polkassembly_url, subsquare_link, subsquare_url,
};
use crate::runtimes::utils::{amount_text, decimal, decimal_text};
use crate::state::{Action, State, StateView};
use crate::types::accounts::{
    compact_or_whole, following, following_of, ss58_decode, ss58_encode, views, Account, AccountId,
    AccountView, Address,
};
use crate::types::child_bounties::{
    duration_text, entries, lemma_u32_keys_ordered, ordered_entries, owned_entries, ChildBounty,
    Filter, FilterView,
};
use crate::types::extensions::ExtensionAccount;

verus! {

/// A menu that drops down from a button and hides again when the pointer
/// leaves it or a choice is made.
#[derive(Clone, Copy, Debug, PartialEq, Eq, Structural)]
pub struct Dropdown {
    pub is_hidden: bool,
}

impl Dropdown {
    /// The menu starts hidden.
    pub fn new() -> (r: Self)
        ensures
            r.is_hidden,
    {
        Dropdown { is_hidden: true }
    }

    /// The button was pressed: the menu shows if it was hidden and hides
    /// if it showed.
    pub fn toggle(self) -> (r: Self)
        ensures
            r.is_hidden == !self.is_hidden,
    {
        Dropdown { is_hidden: !self.is_hidden }
    }

    /// The pointer left the menu, or a choice was made: the menu hides.
    pub fn close(self) -> (r: Self)
        ensures
            r.is_hidden,
    {
        Dropdown { is_hidden: true }
    }
}

/// Whether an option of the signer's menu is the chosen one.
pub fn is_highlighted(selected: &Option<ExtensionAccount>, option: &ExtensionAccount) -> (r: bool)
    ensures
        r == (selected matches Some(account) && account.spec_same(*option)),
{
    match selected {
        Some(account) => account.same(option),
        None => false,
    }
}

/// The ids of the listed bounties that are due, in order.
pub open spec fn due_ids(all: Seq<(u32, ChildBounty)>, followed: Seq<AccountId>, block: u32) -> Seq<
    u32,
>
    decreases all.len(),
{
    if all.len() == 0 {
        Seq::empty()
    } else {
        let rest = due_ids(all.drop_last(), followed, block);
        if is_due(all.last().1, followed, block) {
            rest.push(all.last().0)
        } else {
            rest
        }
    }
}

/// The filter that pressing a pill chooses: the pill for everything
/// chooses just that; the pill for followed accounts, the accounts
/// followed now; the pill for claimable bounties, the cached bounties
/// that are claimable at the latest finalized block for a followed
/// account — none without the cache or the block.
pub open spec fn chosen_filter(pill: FilterView, state: StateView) -> FilterView {
    match pill {
        FilterView::All => FilterView::All,
        FilterView::Following(_) => FilterView::Following(following(state.accounts)),
        FilterView::Claimable(_) => match (
            state.network.finalized_block_number,
            state.child_bounties_raw,
        ) {
            (Some(block), Some(bounties)) => FilterView::Claimable(
                due_ids(ordered_entries(bounties), following(state.accounts), block),
            ),
            _ => FilterView::Claimable(Seq::empty()),
        },
    }
}

/// What pressing the pill of a filter asks for.
pub fn filter_item(pill: &Filter, state: &State) -> (r: Action)
    ensures
        r matches Action::SetFilter(filter) && filter@ == chosen_filter(pill@, state@),
{
    match pill {
        Filter::All => Action::SetFilter(Filter::All),
        Filter::Following(_) => Action::SetFilter(Filter::Following(following_of(&state.accounts))),
        Filter::Claimable(_) => {
            let mut out: Vec<u32> = Vec::new();
            match (state.network.finalized_block_number, &state.child_bounties_raw) {
                (Some(block), Some(bounties)) => {
                    let followed = following_of(&state.accounts);
                    let listed = entries(bounties);
                    let ghost all = ordered_entries(bounties@);
                    let mut i: usize = 0;
                    proof {
                        assert(all.take(0) =~= Seq::empty());
                    }
                    while i < listed.len()
                        invariant
                            i <= listed.len(),
                            owned_entries(listed@) == all,
                            out@ == due_ids(all.take(i as int), followed@, block),
                        decreases listed.len() - i,
                    {
                        let (id, bounty) = listed[i];
                        proof {
                            assert(all.take(i + 1).drop_last() =~= all.take(i as int));
                            assert(all.take(i + 1).last() == (id, *bounty));
                        }
                        if due(bounty, &followed, block) {
                            out.push(id);
                        }
                        i += 1;
                    }
                    proof {
                        assert(all.take(all.len() as int) =~= all);
                    }
                    Action::SetFilter(Filter::Claimable(out))
                },
                _ => Action::SetFilter(Filter::Claimable(out)),
            }
        },
    }
}

/// When a bounty can be claimed, as its row says it.
#[derive(Clone, Debug, PartialEq, Eq)]
pub enum ClaimBadge {
    Claimable,
    /// Not yet: the text says in how long.
    ClaimIn(String),
}

/// What a row offers for following the beneficiary.
#[derive(Clone, Debug, PartialEq, Eq)]
pub enum FollowView {
    /// Nothing is offered.
    Hidden,
    /// The beneficiary is followed already: a check mark.
    Following,
    /// Pressing follows the beneficiary.
    Follow(Action),
}

/// A child bounty as its row shows it.
#[derive(Clone, Debug, PartialEq, Eq)]
pub struct ChildBountyItemView {
    pub description: String,
    /// The value in whole units.
    pub value: String,
    pub unit: &'static str,
    /// Parent and child id.
    pub reference: String,
    pub subsquare: String,
    pub polkassembly: String,
    /// The beneficiary: the resolved name, or the address shortened.
    pub beneficiary: String,
    pub badge: ClaimBadge,
    pub follow: FollowView,
}

/// Parent and child id as a row shows them.
pub open spec fn reference_text(parent_id: u32, id: u32) -> Seq<char> {
    "# "@ + decimal_text(parent_id as nat) + " / "@ + decimal_text(id as nat)
}

pub fn reference(parent_id: u32, id: u32) -> (r: String)
    ensures
        r@ == reference_text(parent_id, id),
{
    let mut out = String::from_str("# ");
    let parent = decimal(parent_id as u128);
    out.append(parent.as_str());
    out.append(" / ");
    let child = decimal(id as u128);
    out.append(child.as_str());
    out
}

/// What the chip of an account says: the resolved name where there is
/// one, else the address shortened.
pub open spec fn chip_text(account: AccountId, identity: Option<String>) -> Seq<char> {
    match identity {
        Some(name) => name@,
        None => compact_or_whole(ss58_encode(account@)),
    }
}

pub fn chip_label(account: &AccountId, identity: &Option<String>) -> (r: String)
    ensures
        r@ == chip_text(*account, *identity),
{
    match identity {
        Some(name) => name.clone(),
        None => account.to_compact_string(),
    }
}

/// Whether an account with the given address text is followed.
pub open spec fn follows_text(accounts: Seq<AccountView>, text: Seq<char>) -> bool {
    exists|i: int| 0 <= i < accounts.len() && (#[trigger] accounts[i]).address.text() == text
}

fn is_followed_text(accounts: &Vec<Account>, text: &str) -> (r: bool)
    ensures
        r == follows_text(views(accounts@), text@),
{
    let mut i: usize = 0;
    while i < accounts.len()
        invariant
            i <= accounts.len(),
            forall|j: int| 0 <= j < i ==> (#[trigger] views(accounts@)[j]).address.text() != text@,
        decreases accounts.len() - i,
    {
        if crate::runtimes::support::str_eq(accounts[i].address.as_str(), text) {
            assert(views(accounts@)[i as int].address.text() == text@);
            return true;
        }
        i += 1;
    }
    false
}

/// The text of the badge of a bounty that is not claimable yet.
pub open spec fn claim_in_text(child_bounty: ChildBounty, block: u32) -> Seq<char> {
    "Claim in "@ + duration_text(child_bounty.spec_unlock_secs(block))
}

/// The row of a cached bounty. There is none for an id that is not
/// cached, nor before a finalized block is known.
pub fn child_bounty_item(state: &State, id: u32, is_action_hidden: bool) -> (r: Option<
    ChildBountyItemView,
>)
    ensures
        r is Some <==> state@.child_bounties_raw is Some && state@.child_bounties_raw->0.contains_key(
            id,
        ) && state.network.finalized_block_number is Some,
        r matches Some(view) ==> {
            let bounty = state@.child_bounties_raw->0[id];
            let block = state.network.finalized_block_number->0;
            let runtime = state.network.runtime;
            let address = ss58_encode(bounty.beneficiary@);
            &&& view.description == bounty.description
            &&& view.value@ == amount_text(bounty.value as nat, runtime.spec_decimals() as nat)
            &&& view.unit@ == runtime.spec_unit()
            &&& view.reference@ == reference_text(bounty.parent_id, bounty.id)
            &&& view.subsquare@ == subsquare_url(runtime, bounty.id)
            &&& view.polkassembly@ == polkassembly_url(runtime, bounty.id)
            &&& view.beneficiary@ == chip_text(bounty.beneficiary, bounty.beneficiary_identity)
            &&& match view.badge {
                ClaimBadge::Claimable => bounty.spec_is_claimable(block),
                ClaimBadge::ClaimIn(text) => !bounty.spec_is_claimable(block) && text@
                    == claim_in_text(bounty, block),
            }
            &&& match view.follow {
                FollowView::Hidden => is_action_hidden || (!follows_text(state@.accounts, address)
                    && ss58_decode(address) != Some(bounty.beneficiary@)),
                FollowView::Following => !is_action_hidden && follows_text(state@.accounts, address),
                FollowView::Follow(action) => !is_action_hidden && !follows_text(
                    state@.accounts,
                    address,
                ) && (action matches Action::AddAccount(added) && added.text() == address
                    && added.id() == bounty.beneficiary),
            }
        },
{
    proof {
        lemma_u32_keys_ordered();
    }
    match (&state.child_bounties_raw, state.network.finalized_block_number) {
        (Some(bounties), Some(block)) => match bounties.get(&id) {
            Some(bounty) => {
                let runtime = state.network.runtime;
                let badge = if bounty.is_claimable(block) {
                    ClaimBadge::Claimable
                } else {
                    let mut text = String::from_str("Claim in ");
                    let wait = bounty.unlock_duration(block);
                    text.append(wait.as_str());
                    ClaimBadge::ClaimIn(text)
                };
                let address = bounty.beneficiary.to_ss58();
                let follow = if is_action_hidden {
                    FollowView::Hidden
                } else if is_followed_text(&state.accounts, address.as_str()) {
                    FollowView::Following
                } else {
                    match Address::from_account_id(&bounty.beneficiary) {
                        Some(added) => FollowView::Follow(Action::AddAccount(added)),
                        None => FollowView::Hidden,
                    }
                };
                Some(
                    ChildBountyItemView {
                        description: bounty.description.clone(),
                        value: bounty.value_human(runtime),
                        unit: runtime.unit(),
                        reference: reference(bounty.parent_id, bounty.id),
                        subsquare: subsquare_link(runtime, bounty.id),
                        polkassembly: polkassembly_link(runtime, bounty.id),
                        beneficiary: chip_label(&bounty.beneficiary, &bounty.beneficiary_identity),
                        badge,
                        follow,
                    },
                )
            },
            None => None,
        },
        _ => None,
    }
}

/// A child bounty as the review of a claim shows it.
#[derive(Clone, Debug, PartialEq, Eq)]
pub struct ChildBountyItemSmallView {
    pub description: String,
    /// The value in whole units.
    pub value: String,
    pub unit: &'static str,
    pub reference: String,
}

/// The line of a cached bounty in the review of a claim. There is none
/// for an id that is not cached.
pub fn child_bounty_item_small(state: &State, id: u32) -> (r: Option<ChildBountyItemSmallView>)
    ensures
        r is Some <==> state@.child_bounties_raw is Some && state@.child_bounties_raw->0.contains_key(
            id,
        ),
        r matches Some(view) ==> {
            let bounty = state@.child_bounties_raw->0[id];
            let runtime = state.network.runtime;
            &&& view.description == bounty.description
            &&& view.value@ == amount_text(bounty.value as nat, runtime.spec_decimals() as nat)
            &&& view.unit@ == runtime.spec_unit()
            &&& view.reference@ == reference_text(bounty.parent_id, bounty.id)
        },
{
    proof {
        lemma_u32_keys_ordered();
    }
    match &state.child_bounties_raw {
        Some(bounties) => match bounties.get(&id) {
            Some(bounty) => {
                let runtime = state.network.runtime;
                Some(
                    ChildBountyItemSmallView {
                        description: bounty.description.clone(),
                        value: bounty.value_human(runtime),
                        unit: runtime.unit(),
                        reference: reference(bounty.parent_id, bounty.id),
                    },
                )
            },
            None => None,
        },
        None => None,
    }
}

} // verus!
