use vstd::prelude::*;
use std::collections::BTreeSet;
use crate::runtimes::support::SupportedRelayRuntime;
use crate::runtimes::utils::{amount_human, amount_text};
use crate::state::{Action, ActionView, State, StateView};
use crate::types::accounts::{views, Account, AccountView};
use crate::types::child_bounties::{
    entries, lemma_u32_keys_ordered, ordered_entries, owned_entries, ChildBounties, ChildBounty,
    Filter, FilterView,
};
use crate::types::layout::BalanceMode;

verus! {

/// Which bounties a total is about: those that a filter lets through, or
/// those linked to an account.
pub enum Scope<'a> {
    Filtered(&'a Filter),
    Linked(&'a BTreeSet<u32>),
}

pub enum ScopeView {
    Filtered(FilterView),
    Linked(Set<u32>),
}

impl<'a> View for Scope<'a> {
    type V = ScopeView;

    open spec fn view(&self) -> ScopeView {
        match self {
            Scope::Filtered(filter) => ScopeView::Filtered(filter@),
            Scope::Linked(ids) => ScopeView::Linked(ids@),
        }
    }
}

/// Which bounties a total is about, by what a block number makes of
/// them: all, those not yet claimable at the block, or those claimable.
#[derive(Clone, Copy, Debug, PartialEq, Eq, Structural)]
pub enum Ripeness {
    Any,
    Pending(u32),
    Claimable(u32),
}

impl ScopeView {
    pub open spec fn holds(self, child_bounty: ChildBounty) -> bool {
        match self {
            ScopeView::Filtered(filter) => filter.accepts(child_bounty),
            ScopeView::Linked(ids) => ids.contains(child_bounty.id),
        }
    }
}

impl Ripeness {
    pub open spec fn holds(self, child_bounty: ChildBounty) -> bool {
        match self {
            Ripeness::Any => true,
            Ripeness::Pending(block) => !child_bounty.spec_is_claimable(block),
            Ripeness::Claimable(block) => child_bounty.spec_is_claimable(block),
        }
    }

    pub fn check(&self, child_bounty: &ChildBounty) -> (r: bool)
        ensures
            r == self.holds(*child_bounty),
    {
        match self {
            Ripeness::Any => true,
            Ripeness::Pending(block) => !child_bounty.is_claimable(*block),
            Ripeness::Claimable(block) => child_bounty.is_claimable(*block),
        }
    }
}

impl<'a> Scope<'a> {
    pub fn check(&self, child_bounty: &ChildBounty) -> (r: bool)
        ensures
            r == self@.holds(*child_bounty),
    {
        proof {
            lemma_u32_keys_ordered();
        }
        match self {
            Scope::Filtered(filter) => filter.check(child_bounty),
            Scope::Linked(ids) => ids.contains(&child_bounty.id),
        }
    }
}

/// The value of the listed bounties that are in scope and of the given
/// ripeness, added up.
pub open spec fn sum_values(
    listed: Seq<(u32, ChildBounty)>,
    scope: ScopeView,
    ripeness: Ripeness,
) -> nat
    decreases listed.len(),
{
    if listed.len() == 0 {
        0
    } else {
        let rest = sum_values(listed.drop_last(), scope, ripeness);
        let last = listed.last().1;
        if scope.holds(last) && ripeness.holds(last) {
            rest + last.value as nat
        } else {
            rest
        }
    }
}

/// The value of the cached bounties that are in scope and of the given
/// ripeness, added up.
pub open spec fn total_value(
    bounties: Map<u32, ChildBounty>,
    scope: ScopeView,
    ripeness: Ripeness,
) -> nat {
    sum_values(ordered_entries(bounties), scope, ripeness)
}

/// A sum as a `u128`, where it fits.
pub open spec fn fitting(sum: nat) -> Option<u128> {
    if sum <= u128::MAX {
        Some(sum as u128)
    } else {
        None
    }
}

/// Adds up the value of the cached bounties that are in scope and of the
/// given ripeness. Nothing comes back where the sum does not fit.
pub fn total(bounties: &ChildBounties, scope: &Scope, ripeness: Ripeness) -> (r: Option<u128>)
    ensures
        r == fitting(total_value(bounties@, scope@, ripeness)),
{
    let listed = entries(bounties);
    let ghost all = ordered_entries(bounties@);
    let mut sum: Option<u128> = Some(0);
    let mut i: usize = 0;
    proof {
        assert(all.take(0) =~= Seq::empty());
    }
    while i < listed.len()
        invariant
            i <= listed.len(),
            owned_entries(listed@) == all,
            sum == fitting(sum_values(all.take(i as int), scope@, ripeness)),
        decreases listed.len() - i,
    {
        let (_, bounty) = listed[i];
        proof {
            assert(all.take(i + 1).drop_last() =~= all.take(i as int));
            assert(all.take(i + 1).last().1 == *bounty);
        }
        if scope.check(bounty) && ripeness.check(bounty) {
            sum = match sum {
                Some(so_far) => so_far.checked_add(bounty.value),
                None => None,
            };
        }
        i += 1;
    }
    proof {
        assert(all.take(all.len() as int) =~= all);
    }
    sum
}

/// What all the accounts hold together, free and reserved.
pub open spec fn sum_balances(accounts: Seq<AccountView>) -> nat
    decreases accounts.len(),
{
    if accounts.len() == 0 {
        0
    } else {
        sum_balances(accounts.drop_last()) + accounts.last().balance.spec_total()
    }
}

/// Adds up what the accounts hold. Nothing comes back where the sum does
/// not fit.
pub fn total_balance(accounts: &Vec<Account>) -> (r: Option<u128>)
    ensures
        r == fitting(sum_balances(views(accounts@))),
{
    let ghost all = views(accounts@);
    let mut sum: Option<u128> = Some(0);
    let mut i: usize = 0;
    proof {
        assert(all.take(0) =~= Seq::empty());
    }
    while i < accounts.len()
        invariant
            i <= accounts.len(),
            all == views(accounts@),
            sum == fitting(sum_balances(all.take(i as int))),
        decreases accounts.len() - i,
    {
        proof {
            assert(all.take(i + 1).drop_last() =~= all.take(i as int));
            assert(all.take(i + 1).last() == accounts@[i as int]@);
        }
        sum = match sum {
            Some(so_far) => match so_far.checked_add(accounts[i].balance.free) {
                Some(with_free) => with_free.checked_add(accounts[i].balance.reserved),
                None => None,
            },
            None => None,
        };
        i += 1;
    }
    proof {
        assert(all.take(all.len() as int) =~= all);
    }
    sum
}

/// The title over a total.
pub open spec fn mode_title(mode: BalanceMode) -> Seq<char> {
    match mode {
        BalanceMode::TotalBalance => "Total balance"@,
        BalanceMode::TotalAwarded => "Total awarded"@,
        BalanceMode::TotalPending => "Total pending"@,
        BalanceMode::TotalClaimable => "Total claimable"@,
    }
}

pub fn title_of(mode: BalanceMode) -> (r: &'static str)
    ensures
        r@ == mode_title(mode),
{
    match mode {
        BalanceMode::TotalBalance => "Total balance",
        BalanceMode::TotalAwarded => "Total awarded",
        BalanceMode::TotalPending => "Total pending",
        BalanceMode::TotalClaimable => "Total claimable",
    }
}

/// The ripeness that a balance mode asks of bounties, where the mode is
/// about bounties and what it needs is known: the pending and the
/// claimable need the latest finalized block.
pub open spec fn ripeness_of(mode: BalanceMode, block: Option<u32>) -> Option<Ripeness> {
    match mode {
        BalanceMode::TotalBalance => None,
        BalanceMode::TotalAwarded => Some(Ripeness::Any),
        BalanceMode::TotalPending => match block {
            Some(number) => Some(Ripeness::Pending(number)),
            None => None,
        },
        BalanceMode::TotalClaimable => match block {
            Some(number) => Some(Ripeness::Claimable(number)),
            None => None,
        },
    }
}

fn ripeness_for(mode: BalanceMode, block: Option<u32>) -> (r: Option<Ripeness>)
    ensures
        r == ripeness_of(mode, block),
{
    match mode {
        BalanceMode::TotalBalance => None,
        BalanceMode::TotalAwarded => Some(Ripeness::Any),
        BalanceMode::TotalPending => match block {
            Some(number) => Some(Ripeness::Pending(number)),
            None => None,
        },
        BalanceMode::TotalClaimable => match block {
            Some(number) => Some(Ripeness::Claimable(number)),
            None => None,
        },
    }
}

/// The amount that the card of totals shows in the state's balance mode:
/// what all the accounts hold, unless that is nothing; or the value of
/// the cached bounties that the active filter lets through — all of
/// them, those pending or those claimable at the latest finalized block.
/// Nothing is shown while the cache or the block that the mode needs is
/// missing, or where the sum does not fit.
pub open spec fn shown_total(state: StateView) -> Option<u128> {
    match state.layout.balance_mode {
        BalanceMode::TotalBalance => match fitting(sum_balances(state.accounts)) {
            Some(sum) => if sum > 0 {
                Some(sum)
            } else {
                None
            },
            None => None,
        },
        mode => match (
            state.child_bounties_raw,
            ripeness_of(mode, state.network.finalized_block_number),
        ) {
            (Some(bounties), Some(ripeness)) => fitting(
                total_value(bounties, ScopeView::Filtered(state.filter), ripeness),
            ),
            _ => None,
        },
    }
}

/// A total as the card shows it.
#[derive(Clone, Debug, PartialEq, Eq)]
pub struct Readout {
    pub title: &'static str,
    /// The amount in whole units.
    pub amount: String,
    pub unit: &'static str,
}

/// The total that the card shows for the state, if it shows one.
pub fn total_balances_card(state: &State, runtime: SupportedRelayRuntime) -> (r: Option<Readout>)
    ensures
        r is Some <==> shown_total(state@) is Some,
        r matches Some(readout) ==> {
            &&& readout.title@ == mode_title(state.layout.balance_mode)
            &&& readout.amount@ == amount_text(
                shown_total(state@)->0 as nat,
                runtime.spec_decimals() as nat,
            )
            &&& readout.unit@ == runtime.spec_unit()
        },
{
    let mode = state.layout.balance_mode;
    let sum = match mode {
        BalanceMode::TotalBalance => match total_balance(&state.accounts) {
            Some(sum) => if sum > 0 {
                Some(sum)
            } else {
                None
            },
            None => None,
        },
        _ => match (&state.child_bounties_raw, ripeness_for(mode, state.network.finalized_block_number)) {
            (Some(bounties), Some(ripeness)) => total(
                bounties,
                &Scope::Filtered(&state.filter),
                ripeness,
            ),
            _ => None,
        },
    };
    match sum {
        Some(value) => Some(
            Readout {
                title: title_of(mode),
                amount: amount_human(value, runtime.decimals() as u32),
                unit: runtime.unit(),
            },
        ),
        None => None,
    }
}

/// The amount that an account's card shows in the given balance mode:
/// what the account holds, or the value of the cached bounties linked to
/// it — all of them, those pending or those claimable at the latest
/// finalized block. Nothing is shown while the cache or the block that
/// the mode needs is missing, or where the sum does not fit.
pub open spec fn shown_for_account(account: AccountView, state: StateView) -> Option<u128> {
    match state.layout.balance_mode {
        BalanceMode::TotalBalance => fitting(account.balance.spec_total()),
        mode => match (
            state.child_bounties_raw,
            ripeness_of(mode, state.network.finalized_block_number),
        ) {
            (Some(bounties), Some(ripeness)) => fitting(
                total_value(bounties, ScopeView::Linked(account.child_bounty_ids), ripeness),
            ),
            _ => None,
        },
    }
}

/// The amount on an account's card, in whole units.
pub fn account_balance(account: &Account, state: &State, runtime: SupportedRelayRuntime) -> (r:
    Option<String>)
    ensures
        r is Some <==> shown_for_account(account@, state@) is Some,
        r matches Some(amount) ==> amount@ == amount_text(
            shown_for_account(account@, state@)->0 as nat,
            runtime.spec_decimals() as nat,
        ),
{
    let mode = state.layout.balance_mode;
    let sum = match mode {
        BalanceMode::TotalBalance => account.balance.checked_total(),
        _ => match (&state.child_bounties_raw, ripeness_for(mode, state.network.finalized_block_number)) {
            (Some(bounties), Some(ripeness)) => total(
                bounties,
                &Scope::Linked(&account.child_bounty_ids),
                ripeness,
            ),
            _ => None,
        },
    };
    match sum {
        Some(value) => Some(amount_human(value, runtime.decimals() as u32)),
        None => None,
    }
}

/// Whether the button of a balance mode cannot be pressed: the mode shown
/// already, and the modes about bounties while the network is busy.
pub open spec fn balance_button_disabled(state: StateView, mode: BalanceMode) -> bool {
    state.layout.balance_mode == mode || (mode != BalanceMode::TotalBalance
        && state.network.spec_is_busy())
}

pub fn is_balance_button_disabled(state: &State, mode: BalanceMode) -> (r: bool)
    ensures
        r == balance_button_disabled(state@, mode),
{
    state.layout.balance_mode == mode || (mode != BalanceMode::TotalBalance
        && state.network.is_busy())
}

/// What pressing the button of a balance mode asks for.
pub fn balance_button_pressed(mode: BalanceMode) -> (r: Action)
    ensures
        r@ == ActionView::ChangeBalanceMode(mode),
{
    Action::ChangeBalanceMode(mode)
}

/// An account as its card shows it.
#[derive(Clone, Debug, PartialEq, Eq)]
pub struct AccountCardView {
    pub id: u32,
    /// The address, shortened.
    pub label: String,
    /// How many bounties are linked, for the badge; none without any.
    pub badge: Option<usize>,
}

/// The card of an account.
pub fn account_item(account: &Account) -> (r: AccountCardView)
    ensures
        r.id == account.id,
        r.label@ == crate::types::accounts::compact_or_whole(
            crate::types::accounts::ss58_encode(account.address.id()@),
        ),
        r.badge == if account.child_bounty_ids@.len() > 0 {
            Some(account.child_bounty_ids@.len() as usize)
        } else {
            None
        },
{
    proof {
        lemma_u32_keys_ordered();
        vstd::std_specs::btree::axiom_spec_btree_set_len(&account.child_bounty_ids);
    }
    let linked = account.child_bounty_ids.len();
    AccountCardView {
        id: account.id,
        label: account.to_compact_string(),
        badge: if linked > 0 {
            Some(linked)
        } else {
            None
        },
    }
}

/// What choosing "Unfollow" on an account's card asks for.
pub fn unfollow_pressed(id: u32) -> (r: Action)
    ensures
        r@ == ActionView::RemoveAccountId(id),
{
    Action::RemoveAccountId(id)
}

/// The ids of the accounts in the order of their cards: the one added
/// last comes first.
pub fn card_order(accounts: &Vec<Account>) -> (r: Vec<u32>)
    ensures
        r@ == views(accounts@).map_values(|a: AccountView| a.id).reverse(),
{
    let ghost ids = views(accounts@).map_values(|a: AccountView| a.id);
    let mut out: Vec<u32> = Vec::new();
    let n = accounts.len();
    let mut i: usize = 0;
    while i < n
        invariant
            n == accounts.len(),
            i <= n,
            ids == views(accounts@).map_values(|a: AccountView| a.id),
            out@.len() == i,
            forall|j: int| 0 <= j < i ==> out@[j] == ids[n - 1 - j],
        decreases n - i,
    {
        out.push(accounts[n - 1 - i].id);
        i += 1;
    }
    assert(out@ =~= ids.reverse());
    out
}

} // verus!
