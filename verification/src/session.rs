use vstd::prelude::*;
use crate::runtimes::support::SupportedRelayRuntime;
use crate::state::store::{LocalStore, LocalStoreView};
use crate::state::{Action, ActionView, State, StateView};
use crate::types::accounts::{views, Account, AccountId, AccountView};
use crate::types::child_bounties::ChildBountiesIds;
use crate::types::claims::{ClaimState, ClaimStatus};
use crate::types::extensions::ExtensionState;
use crate::types::network::{NetworkStatus, SubscriptionId};
use crate::types::worker::{Input, Output};

verus! {

/// The id of the first followed account that `account` names.
pub open spec fn id_of(accounts: Seq<AccountView>, account: AccountId) -> Option<u32>
    decreases accounts.len(),
{
    if accounts.len() == 0 {
        None
    } else if accounts.first().address.id() == account {
        Some(accounts.first().id)
    } else {
        id_of(accounts.drop_first(), account)
    }
}

pub fn find_account_id(accounts: &Vec<Account>, account: &AccountId) -> (r: Option<u32>)
    ensures
        r == id_of(views(accounts@), *account),
{
    let mut i: usize = 0;
    let ghost all = views(accounts@);
    proof {
        assert(all.skip(0) =~= all);
    }
    while i < accounts.len()
        invariant
            i <= accounts.len(),
            all == views(accounts@),
            id_of(all, *account) == id_of(all.skip(i as int), *account),
        decreases accounts.len() - i,
    {
        proof {
            assert(all.skip(i as int).drop_first() =~= all.skip(i + 1));
        }
        if accounts[i].address.account_id().same(account) {
            return Some(accounts[i].id);
        }
        i += 1;
    }
    None
}

/// What the state is asked to do when the worker reports something.
/// Reports on the session, that it is active or has a new finalized
/// block, count only while they carry the current session's id; a
/// balance counts only for a followed account.
pub open spec fn action_on(state: StateView, output: Output) -> Option<ActionView> {
    match output {
        Output::Active(id) => if id == state.network.subscription_id {
            Some(ActionView::ChangeNetworkStatus(NetworkStatus::Active))
        } else {
            None
        },
        Output::BlockNumber(id, number) => if id == state.network.subscription_id {
            Some(ActionView::UpdateBlockNumber(number))
        } else {
            None
        },
        Output::ChildBounties(data) => Some(ActionView::UpdateChildBountiesRaw(data@)),
        Output::AccountBalance(account, balance) => match id_of(state.accounts, account) {
            Some(id) => Some(ActionView::UpdateAccountIdBalance(id, balance)),
            None => None,
        },
        Output::AccountIdentity(_, _) => None,
        Output::TxPayload(payload) => Some(ActionView::GetSignature(payload)),
        Output::TxCompleted(claimed) => Some(ActionView::CompleteClaim(claimed@)),
        Output::Failed(_) => Some(ActionView::ChangeNetworkStatus(NetworkStatus::Inactive)),
    }
}

/// The action that a report of the worker calls for, if any.
pub fn action_for_output(state: &State, output: Output) -> (r: Option<Action>)
    ensures
        action_on(state@, output) == match r {
            Some(action) => Some(action@),
            None => None,
        },
        r matches Some(action) ==> state.accepts(action),
{
    match output {
        Output::Active(id) => if state.network.is_current(id) {
            Some(Action::ChangeNetworkStatus(NetworkStatus::Active))
        } else {
            None
        },
        Output::BlockNumber(id, number) => if state.network.is_current(id) {
            Some(Action::UpdateBlockNumber(number))
        } else {
            None
        },
        Output::ChildBounties(data) => Some(Action::UpdateChildBountiesRaw(data)),
        Output::AccountBalance(account, balance) => match find_account_id(
            &state.accounts,
            &account,
        ) {
            Some(id) => Some(Action::UpdateAccountIdBalance(id, balance)),
            None => None,
        },
        Output::AccountIdentity(_, _) => None,
        Output::TxPayload(payload) => Some(Action::GetSignature(payload)),
        Output::TxCompleted(claimed) => Some(Action::CompleteClaim(claimed)),
        Output::Failed(_) => Some(Action::ChangeNetworkStatus(NetworkStatus::Inactive)),
    }
}

/// The state and the stored data after a report of the worker.
pub open spec fn after_output(
    state: StateView,
    output: Output,
    store: LocalStoreView,
    fresh_id: SubscriptionId,
) -> (StateView, LocalStoreView) {
    match action_on(state, output) {
        Some(action) => state.reduce(action, store, fresh_id),
        None => (state, store),
    }
}

/// Takes a report of the worker into the state.
pub fn handle_output(state: State, output: Output, store: LocalStore, fresh_id: SubscriptionId) -> (r:
    (State, LocalStore))
    ensures
        (r.0@, r.1@) == after_output(state@, output, store@, fresh_id),
{
    match action_for_output(&state, output) {
        Some(action) => state.reduce_with(action, store, fresh_id),
        None => (state, store),
    }
}

/// A block number reported under another session's id changes nothing:
/// neither the finalized block nor anything else of the state, nor what
/// is stored.
pub proof fn stale_block_number_is_dropped(
    state: StateView,
    sender: SubscriptionId,
    number: u32,
    store: LocalStoreView,
    fresh_id: SubscriptionId,
)
    requires
        sender != state.network.subscription_id,
    ensures
        after_output(state, Output::BlockNumber(sender, number), store, fresh_id) == (state, store),
        after_output(state, Output::Active(sender), store, fresh_id) == (state, store),
{
}

/// A block number reported under the current session's id becomes the
/// finalized block.
pub proof fn current_block_number_is_taken(
    state: StateView,
    number: u32,
    store: LocalStoreView,
    fresh_id: SubscriptionId,
)
    ensures
        after_output(
            state,
            Output::BlockNumber(state.network.subscription_id, number),
            store,
            fresh_id,
        ).0.network.finalized_block_number == Some(number),
{
}

/// One request for the balance of each followed account, in their order.
pub open spec fn balance_requests(accounts: Seq<AccountView>) -> Seq<Input> {
    accounts.map_values(|a: AccountView| Input::FetchAccountBalance(a.address.id()))
}

fn push_balance_requests(inputs: &mut Vec<Input>, accounts: &Vec<Account>)
    ensures
        final(inputs)@ == old(inputs)@ + balance_requests(views(accounts@)),
{
    let ghost before = inputs@;
    let mut i: usize = 0;
    assert(inputs@ =~= before + balance_requests(views(accounts@)).take(0));
    while i < accounts.len()
        invariant
            i <= accounts.len(),
            inputs@ == before + balance_requests(views(accounts@)).take(i as int),
        decreases accounts.len() - i,
    {
        inputs.push(Input::FetchAccountBalance(accounts[i].address.account_id()));
        proof {
            let all = balance_requests(views(accounts@));
            assert(all.take(i + 1) =~= all.take(i as int).push(all[i as int]));
            assert(inputs@ =~= before + all.take(i + 1));
        }
        i += 1;
    }
    proof {
        let all = balance_requests(views(accounts@));
        assert(all.take(all.len() as int) =~= all);
    }
}

/// What the worker is asked when the network status changes: to start
/// the session while it initializes; once it is active, the child
/// bounties and the balance of every followed account.
pub open spec fn requests_on_status(state: StateView) -> Seq<Input> {
    match state.network.status {
        NetworkStatus::Initializing => seq![
            Input::Start(
                state.network.subscription_id,
                state.network.runtime,
                state.network.use_light_client_as_network_provider,
            ),
        ],
        NetworkStatus::Active => seq![Input::FetchChildBounties] + balance_requests(state.accounts),
        NetworkStatus::Inactive => Seq::empty(),
    }
}

/// What follows a change of the network status: the requests to the
/// worker and, where a fetch of the bounties is among them, the action
/// that counts it.
pub fn on_network_status(state: &State) -> (r: (Option<Action>, Vec<Input>))
    ensures
        r.1@ == requests_on_status(state@),
        match r.0 {
            Some(action) => state.network.status == NetworkStatus::Active && action@
                == ActionView::IncreaseFetch,
            None => state.network.status != NetworkStatus::Active,
        },
{
    let mut inputs: Vec<Input> = Vec::new();
    match state.network.status {
        NetworkStatus::Initializing => {
            inputs.push(
                Input::Start(
                    state.network.subscription_id,
                    state.network.runtime,
                    state.network.use_light_client_as_network_provider,
                ),
            );
            assert(inputs@ =~= requests_on_status(state@));
            (None, inputs)
        },
        NetworkStatus::Active => {
            inputs.push(Input::FetchChildBounties);
            push_balance_requests(&mut inputs, &state.accounts);
            assert(inputs@ =~= requests_on_status(state@));
            (Some(Action::IncreaseFetch), inputs)
        },
        NetworkStatus::Inactive => (None, inputs),
    }
}

/// What follows a change of the followed accounts: onboarding starts
/// where none is left, and every account's balance is asked for.
pub fn on_accounts_changed(state: &State) -> (r: (Option<Action>, Vec<Input>))
    ensures
        r.1@ == balance_requests(state@.accounts),
        match r.0 {
            Some(action) => state.accounts@.len() == 0 && action@ == ActionView::StartOnboarding,
            None => state.accounts@.len() > 0,
        },
{
    let mut inputs: Vec<Input> = Vec::new();
    push_balance_requests(&mut inputs, &state.accounts);
    assert(inputs@ =~= balance_requests(state@.accounts));
    if state.accounts.len() == 0 {
        (Some(Action::StartOnboarding), inputs)
    } else {
        (None, inputs)
    }
}

/// A copy of the ids of a claim.
pub fn copy_ids(ids: &ChildBountiesIds) -> (r: ChildBountiesIds)
    ensures
        r@ == ids@,
{
    let mut out: ChildBountiesIds = Vec::new();
    let mut i: usize = 0;
    while i < ids.len()
        invariant
            i <= ids.len(),
            out@ == ids@.take(i as int),
        decreases ids.len() - i,
    {
        out.push(ids[i]);
        assert(ids@.take(i + 1) =~= ids@.take(i as int).push(ids@[i as int]));
        i += 1;
    }
    assert(ids@.take(ids@.len() as int) =~= ids@);
    out
}

/// A copy of some bytes.
pub fn copy_bytes(bytes: &Vec<u8>) -> (r: Vec<u8>)
    ensures
        r@ == bytes@,
{
    let mut out: Vec<u8> = Vec::new();
    let mut i: usize = 0;
    while i < bytes.len()
        invariant
            i <= bytes.len(),
            out@ == bytes@.take(i as int),
        decreases bytes.len() - i,
    {
        out.push(bytes[i]);
        assert(bytes@.take(i + 1) =~= bytes@.take(i as int).push(bytes@[i as int]));
        i += 1;
    }
    assert(bytes@.take(bytes@.len() as int) =~= bytes@);
    out
}

/// Whether the claim asks something of the worker: it is being prepared
/// or submitted, and the signer is chosen and ready.
pub open spec fn claim_calls_worker(claim: Option<ClaimState>, extension: ExtensionState) -> bool {
    &&& claim matches Some(open)
    &&& open.status is Preparing || open.status is Submitting
    &&& extension.status is Ready
    &&& extension.signer is Some
}

/// What the worker is asked when the claim changes: the payload for a
/// claim that is being prepared, the submission of one that is signed.
pub fn on_claim_changed(claim: &Option<ClaimState>, extension: &ExtensionState) -> (r: Option<Input>)
    ensures
        r is Some <==> claim_calls_worker(*claim, *extension),
        r matches Some(input) ==> match claim->0.status {
            ClaimStatus::Preparing => input matches Input::CreatePayloadTx(ids, address) && ids@
                == claim->0.child_bounty_ids@ && address@ == extension.signer->0.address@,
            ClaimStatus::Submitting(signature) => input matches Input::SignAndSubmitTx(
                ids,
                address,
                bytes,
            ) && ids@ == claim->0.child_bounty_ids@ && address@ == extension.signer->0.address@
                && bytes@ == signature@,
            _ => false,
        },
{
    match claim {
        Some(open) => {
            if !extension.is_ready() {
                return None;
            }
            match &extension.signer {
                Some(signer) => match &open.status {
                    ClaimStatus::Preparing => Some(
                        Input::CreatePayloadTx(
                            copy_ids(&open.child_bounty_ids),
                            signer.address.clone(),
                        ),
                    ),
                    ClaimStatus::Submitting(signature) => Some(
                        Input::SignAndSubmitTx(
                            copy_ids(&open.child_bounty_ids),
                            signer.address.clone(),
                            copy_bytes(signature),
                        ),
                    ),
                    _ => None,
                },
                None => None,
            }
        },
        None => None,
    }
}

/// What switching to another chain asks for: the worker's session ends,
/// and a new one starts on that chain with the same kind of connection.
pub fn switch_network(state: &State, runtime: SupportedRelayRuntime) -> (r: (Input, Action))
    ensures
        r.0 == Input::Finish,
        r.1@ == ActionView::ChangeNetwork(
            runtime,
            state.network.use_light_client_as_network_provider,
        ),
{
    (
        Input::Finish,
        Action::ChangeNetwork(runtime, state.network.use_light_client_as_network_provider),
    )
}

/// What toggling the provider asks for: the worker's session ends, and
/// a new one starts on the same chain with the other kind of connection.
pub fn toggle_provider(state: &State) -> (r: (Input, Action))
    ensures
        r.0 == Input::Finish,
        r.1@ == ActionView::ChangeNetwork(
            state.network.runtime,
            !state.network.use_light_client_as_network_provider,
        ),
{
    (
        Input::Finish,
        Action::ChangeNetwork(
            state.network.runtime,
            !state.network.use_light_client_as_network_provider,
        ),
    )
}

/// Style class of the header: always shown during onboarding, otherwise
/// hidden on small screens.
pub fn header_class(state: &State) -> (r: &'static str)
    ensures
        r@ == if state.layout.is_onboarding {
            "flex"@
        } else {
            "hidden sm:flex"@
        },
{
    if state.layout.is_onboarding {
        "flex"
    } else {
        "hidden sm:flex"
    }
}

} // verus!
