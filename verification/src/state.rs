use vstd::prelude::*;
use std::collections::BTreeSet;
use crate::runtimes::support::SupportedRelayRuntime;
use crate::state::linking::{
    linked, linked_ids, relink, relinked, remove_account, remove_claimed, set_balance, strip,
    stripped, with_balance, without_id,
};
use crate::state::store::{
    account_key, onboarded_key, signer_key, storage_key_text, LocalStore, LocalStoreView,
    ACCOUNTS_KEY, ONBOARDED_KEY, SIGNER_KEY,
};
use crate::types::accounts::{
    clone_accounts, follows, following, following_of, is_following, largest_id, max_id, views,
    Account, AccountId, AccountView, Address, Balance,
};
use crate::types::child_bounties::{
    ChildBounties, ChildBountiesIds, ChildBounty, ChildBountyId, Filter, FilterView,
};
use crate::types::claims::{ClaimState, ClaimStatus};
use crate::types::extensions::{ExtensionAccount, ExtensionState, ExtensionStatus};
use crate::types::layout::{BalanceMode, LayoutState};
use crate::types::network::{NetworkState, NetworkStatus, SubscriptionId};

pub mod laws;
pub mod linking;
pub mod store;

verus! {

/// The one state of the application.
#[derive(Clone, Debug, PartialEq, Eq)]
pub struct State {
    pub accounts: Vec<Account>,
    pub network: NetworkState,
    pub child_bounties_raw: Option<ChildBounties>,
    pub filter: Filter,
    pub extension: ExtensionState,
    pub claim: Option<ClaimState>,
    pub layout: LayoutState,
}

pub struct StateView {
    pub accounts: Seq<AccountView>,
    pub network: NetworkState,
    pub child_bounties_raw: Option<Map<u32, ChildBounty>>,
    pub filter: FilterView,
    pub extension: ExtensionState,
    pub claim: Option<ClaimState>,
    pub layout: LayoutState,
}

impl View for State {
    type V = StateView;

    open spec fn view(&self) -> StateView {
        StateView {
            accounts: views(self.accounts@),
            network: self.network,
            child_bounties_raw: match self.child_bounties_raw {
                Some(bounties) => Some(bounties@),
                None => None,
            },
            filter: self.filter@,
            extension: self.extension,
            claim: self.claim,
            layout: self.layout,
        }
    }
}

/// What can be asked of the state.
#[derive(Clone, Debug, PartialEq, Eq)]
pub enum Action {
    /// Follow the account at an address.
    AddAccount(Address),
    /// Stop following the account with an id.
    RemoveAccountId(u32),
    UpdateAccountIdBalance(u32, Balance),
    /// Open a claim for the given bounties.
    StartClaim(ChildBountiesIds),
    /// Drop the open claim.
    ResetClaim,
    /// Build the payload for the open claim.
    PreparePayload,
    /// The payload is built: ask the wallet to sign it.
    GetSignature(String),
    /// The wallet signed: submit the transaction.
    SubmitWithSignature(Vec<u8>),
    /// The transaction is final and paid out the given bounties.
    CompleteClaim(Vec<ChildBountyId>),
    /// The claim failed with a message.
    ErrorClaim(String),
    /// Ask the named wallet extension for its accounts.
    ConnectExtension(String),
    ChangeExtensionStatus(ExtensionStatus),
    ChangeSigner(ExtensionAccount),
    ChangeNetworkStatus(NetworkStatus),
    /// Start a session with a chain, through the light client or not.
    ChangeNetwork(SupportedRelayRuntime, bool),
    UpdateBlockNumber(u32),
    /// A fetch of the child bounties came back.
    UpdateChildBountiesRaw(ChildBounties),
    /// A fetch is about to be issued.
    IncreaseFetch,
    SetFilter(Filter),
    ToggleLayoutAddAccountModal,
    ChangeBalanceMode(BalanceMode),
    StartOnboarding,
    FinishOnboarding,
}

pub enum ActionView {
    AddAccount(Address),
    RemoveAccountId(u32),
    UpdateAccountIdBalance(u32, Balance),
    StartClaim(ChildBountiesIds),
    ResetClaim,
    PreparePayload,
    GetSignature(String),
    SubmitWithSignature(Vec<u8>),
    CompleteClaim(Seq<ChildBountyId>),
    ErrorClaim(String),
    ConnectExtension(String),
    ChangeExtensionStatus(ExtensionStatus),
    ChangeSigner(ExtensionAccount),
    ChangeNetworkStatus(NetworkStatus),
    ChangeNetwork(SupportedRelayRuntime, bool),
    UpdateBlockNumber(u32),
    UpdateChildBountiesRaw(Map<u32, ChildBounty>),
    IncreaseFetch,
    SetFilter(FilterView),
    ToggleLayoutAddAccountModal,
    ChangeBalanceMode(BalanceMode),
    StartOnboarding,
    FinishOnboarding,
}

impl View for Action {
    type V = ActionView;

    open spec fn view(&self) -> ActionView {
        match self {
            Action::AddAccount(address) => ActionView::AddAccount(*address),
            Action::RemoveAccountId(id) => ActionView::RemoveAccountId(*id),
            Action::UpdateAccountIdBalance(id, balance) => ActionView::UpdateAccountIdBalance(
                *id,
                *balance,
            ),
            Action::StartClaim(ids) => ActionView::StartClaim(*ids),
            Action::ResetClaim => ActionView::ResetClaim,
            Action::PreparePayload => ActionView::PreparePayload,
            Action::GetSignature(payload) => ActionView::GetSignature(*payload),
            Action::SubmitWithSignature(signature) => ActionView::SubmitWithSignature(*signature),
            Action::CompleteClaim(claimed) => ActionView::CompleteClaim(claimed@),
            Action::ErrorClaim(message) => ActionView::ErrorClaim(*message),
            Action::ConnectExtension(source) => ActionView::ConnectExtension(*source),
            Action::ChangeExtensionStatus(status) => ActionView::ChangeExtensionStatus(*status),
            Action::ChangeSigner(account) => ActionView::ChangeSigner(*account),
            Action::ChangeNetworkStatus(status) => ActionView::ChangeNetworkStatus(*status),
            Action::ChangeNetwork(runtime, light) => ActionView::ChangeNetwork(*runtime, *light),
            Action::UpdateBlockNumber(number) => ActionView::UpdateBlockNumber(*number),
            Action::UpdateChildBountiesRaw(data) => ActionView::UpdateChildBountiesRaw(data@),
            Action::IncreaseFetch => ActionView::IncreaseFetch,
            Action::SetFilter(filter) => ActionView::SetFilter(filter@),
            Action::ToggleLayoutAddAccountModal => ActionView::ToggleLayoutAddAccountModal,
            Action::ChangeBalanceMode(mode) => ActionView::ChangeBalanceMode(*mode),
            Action::StartOnboarding => ActionView::StartOnboarding,
            Action::FinishOnboarding => ActionView::FinishOnboarding,
        }
    }
}

/// Onboarding is due while no account is followed or the stored flag
/// does not say that it was completed.
pub open spec fn onboarding_due(accounts: Seq<AccountView>, onboarded: bool) -> bool {
    accounts.len() == 0 || !onboarded
}

/// The filter that goes with the onboarding state: everything during
/// onboarding, the followed accounts after it.
pub open spec fn filter_for(onboarding: bool, accounts: Seq<AccountView>) -> FilterView {
    if onboarding {
        FilterView::All
    } else {
        FilterView::Following(following(accounts))
    }
}

/// The bounties of the cache that name `account`; none without a cache.
pub open spec fn linked_in_cache(cache: Option<Map<u32, ChildBounty>>, account: AccountId) -> Set<u32> {
    match cache {
        Some(bounties) => linked_ids(bounties, account),
        None => Set::empty(),
    }
}

/// The account that following `address` adds to `accounts`.
pub open spec fn new_account(
    accounts: Seq<AccountView>,
    cache: Option<Map<u32, ChildBounty>>,
    address: Address,
) -> AccountView {
    AccountView {
        id: (max_id(accounts) + 1) as u32,
        address,
        identity: None,
        disabled: false,
        child_bounty_ids: linked_in_cache(cache, address.id()),
        balance: Balance { free: 0, reserved: 0 },
    }
}

/// The claim, if one is open, under a new status.
pub open spec fn claim_with_status(claim: Option<ClaimState>, status: ClaimStatus) -> Option<
    ClaimState,
> {
    match claim {
        Some(open) => Some(ClaimState { child_bounty_ids: open.child_bounty_ids, status }),
        None => None,
    }
}

/// The cache without the claimed bounties; an empty cache where there
/// was none.
pub open spec fn cache_after_claim(cache: Option<Map<u32, ChildBounty>>, claimed: Set<u32>) -> Map<
    u32,
    ChildBounty,
> {
    match cache {
        Some(bounties) => bounties.remove_keys(claimed),
        None => Map::empty(),
    }
}

/// A count raised by one, held at the largest value.
pub open spec fn raised(counter: u32) -> u32 {
    if counter < u32::MAX {
        (counter + 1) as u32
    } else {
        counter
    }
}

/// A count lowered by one, held at zero.
pub open spec fn lowered(counter: u32) -> u32 {
    if counter > 0 {
        (counter - 1) as u32
    } else {
        counter
    }
}

impl StateView {
    /// The state the application starts in on `runtime`, from what local
    /// storage holds for that chain.
    pub open spec fn initial(
        runtime: SupportedRelayRuntime,
        use_light_client: bool,
        store: LocalStoreView,
        subscription_id: SubscriptionId,
    ) -> StateView {
        let stored = store.slice(runtime);
        let onboarding = onboarding_due(stored.accounts, stored.onboarded);
        StateView {
            accounts: stored.accounts,
            network: NetworkState::fresh(subscription_id, runtime, use_light_client),
            child_bounties_raw: None,
            filter: filter_for(onboarding, stored.accounts),
            extension: ExtensionState { signer: stored.signer, status: ExtensionStatus::Initialized },
            claim: None,
            layout: LayoutState {
                is_add_account_modal_visible: false,
                is_onboarding: onboarding,
                balance_mode: BalanceMode::TotalBalance,
            },
        }
    }

    /// The state and the stored data after an action. `fresh_id` names
    /// the session that a change of network starts.
    pub open spec fn reduce(
        self,
        action: ActionView,
        store: LocalStoreView,
        fresh_id: SubscriptionId,
    ) -> (StateView, LocalStoreView) {
        let runtime = self.network.runtime;
        match action {
            ActionView::AddAccount(address) => {
                if follows(self.accounts, address.text()) {
                    (self, store)
                } else {
                    let accounts = self.accounts.push(
                        new_account(self.accounts, self.child_bounties_raw, address),
                    );
                    (StateView { accounts, ..self }, store.with_accounts(runtime, accounts))
                }
            },
            ActionView::RemoveAccountId(id) => {
                let accounts = without_id(self.accounts, id);
                (
                    StateView {
                        accounts,
                        filter: filter_for(accounts.len() == 0, accounts),
                        ..self
                    },
                    store.with_accounts(runtime, accounts),
                )
            },
            ActionView::UpdateAccountIdBalance(id, balance) => (
                StateView { accounts: with_balance(self.accounts, id, balance), ..self },
                store,
            ),
            ActionView::StartClaim(ids) => (
                StateView {
                    claim: Some(
                        ClaimState { child_bounty_ids: ids, status: ClaimStatus::Initializing },
                    ),
                    ..self
                },
                store,
            ),
            ActionView::ResetClaim => (StateView { claim: None, ..self }, store),
            ActionView::PreparePayload => (
                StateView { claim: claim_with_status(self.claim, ClaimStatus::Preparing), ..self },
                store,
            ),
            ActionView::GetSignature(payload) => (
                StateView {
                    claim: claim_with_status(self.claim, ClaimStatus::Signing(payload)),
                    ..self
                },
                store,
            ),
            ActionView::SubmitWithSignature(signature) => (
                StateView {
                    claim: claim_with_status(self.claim, ClaimStatus::Submitting(signature)),
                    ..self
                },
                store,
            ),
            ActionView::CompleteClaim(claimed) => (
                StateView {
                    accounts: stripped(self.accounts, claimed.to_set()),
                    child_bounties_raw: Some(
                        cache_after_claim(self.child_bounties_raw, claimed.to_set()),
                    ),
                    claim: claim_with_status(self.claim, ClaimStatus::Completed),
                    ..self
                },
                store,
            ),
            ActionView::ErrorClaim(message) => (
                StateView {
                    claim: claim_with_status(self.claim, ClaimStatus::Error(message)),
                    ..self
                },
                store,
            ),
            ActionView::ConnectExtension(source) => (
                StateView {
                    extension: ExtensionState {
                        signer: self.extension.signer,
                        status: ExtensionStatus::Connecting(source),
                    },
                    ..self
                },
                store,
            ),
            ActionView::ChangeExtensionStatus(status) => (
                StateView {
                    extension: ExtensionState { signer: self.extension.signer, status },
                    ..self
                },
                store,
            ),
            ActionView::ChangeSigner(account) => (
                StateView {
                    extension: ExtensionState {
                        signer: Some(account),
                        status: ExtensionStatus::Ready,
                    },
                    ..self
                },
                store.with_signer(runtime, account),
            ),
            ActionView::ChangeNetworkStatus(status) => (
                StateView { network: NetworkState { status, ..self.network }, ..self },
                store,
            ),
            ActionView::ChangeNetwork(next, use_light_client) => {
                let stored = store.slice(next);
                let onboarding = onboarding_due(stored.accounts, stored.onboarded);
                (
                    StateView {
                        accounts: stored.accounts,
                        network: NetworkState::fresh(fresh_id, next, use_light_client),
                        child_bounties_raw: None,
                        filter: filter_for(onboarding, stored.accounts),
                        extension: self.extension,
                        claim: self.claim,
                        layout: LayoutState {
                            is_onboarding: onboarding,
                            balance_mode: BalanceMode::TotalBalance,
                            ..self.layout
                        },
                    },
                    store,
                )
            },
            ActionView::UpdateBlockNumber(number) => (
                StateView {
                    network: NetworkState { finalized_block_number: Some(number), ..self.network },
                    ..self
                },
                store,
            ),
            ActionView::UpdateChildBountiesRaw(data) => {
                let accounts = relinked(self.accounts, data);
                let onboarding = onboarding_due(accounts, store.slice(runtime).onboarded);
                (
                    StateView {
                        accounts,
                        network: NetworkState {
                            fetches_counter: lowered(self.network.fetches_counter),
                            ..self.network
                        },
                        child_bounties_raw: Some(data),
                        filter: filter_for(onboarding, accounts),
                        ..self
                    },
                    store.with_accounts(runtime, accounts),
                )
            },
            ActionView::IncreaseFetch => (
                StateView {
                    network: NetworkState {
                        fetches_counter: raised(self.network.fetches_counter),
                        ..self.network
                    },
                    ..self
                },
                store,
            ),
            ActionView::SetFilter(filter) => (StateView { filter, ..self }, store),
            ActionView::ToggleLayoutAddAccountModal => (
                StateView {
                    layout: LayoutState {
                        is_add_account_modal_visible: !self.layout.is_add_account_modal_visible,
                        ..self.layout
                    },
                    ..self
                },
                store,
            ),
            ActionView::ChangeBalanceMode(mode) => (
                StateView { layout: LayoutState { balance_mode: mode, ..self.layout }, ..self },
                store,
            ),
            ActionView::StartOnboarding => (
                StateView { layout: LayoutState { is_onboarding: true, ..self.layout }, ..self },
                store.with_onboarded(runtime, false),
            ),
            ActionView::FinishOnboarding => (
                StateView {
                    filter: FilterView::Following(following(self.accounts)),
                    layout: LayoutState { is_onboarding: false, ..self.layout },
                    ..self
                },
                store.with_onboarded(runtime, true),
            ),
        }
    }
}

/// The filter that goes with the onboarding state and the accounts.
pub fn make_filter(onboarding: bool, accounts: &Vec<Account>) -> (r: Filter)
    ensures
        r@ == filter_for(onboarding, views(accounts@)),
{
    if onboarding {
        Filter::All
    } else {
        Filter::Following(following_of(accounts))
    }
}

fn with_status(claim: Option<ClaimState>, status: ClaimStatus) -> (r: Option<ClaimState>)
    ensures
        r == claim_with_status(claim, status),
{
    match claim {
        Some(open) => Some(ClaimState { child_bounty_ids: open.child_bounty_ids, status }),
        None => None,
    }
}

impl State {
    /// The key of the followed accounts of the current chain.
    pub fn account_key(&self) -> (r: String)
        ensures
            r@ == storage_key_text(self.network.runtime, ACCOUNTS_KEY@),
    {
        account_key(self.network.runtime)
    }

    /// The key of the signer of the current chain.
    pub fn signer_key(&self) -> (r: String)
        ensures
            r@ == storage_key_text(self.network.runtime, SIGNER_KEY@),
    {
        signer_key(self.network.runtime)
    }

    /// The key of the onboarding flag of the current chain.
    pub fn onboarded_key(&self) -> (r: String)
        ensures
            r@ == storage_key_text(self.network.runtime, ONBOARDED_KEY@),
    {
        onboarded_key(self.network.runtime)
    }

    /// The state the application starts in, under the given session id.
    pub fn with_subscription_id(
        runtime: SupportedRelayRuntime,
        use_light_client: bool,
        store: &LocalStore,
        subscription_id: SubscriptionId,
    ) -> (r: State)
        ensures
            r@ == StateView::initial(runtime, use_light_client, store@, subscription_id),
    {
        let stored = store.slice(runtime);
        let accounts = clone_accounts(&stored.accounts);
        let onboarding = accounts.len() == 0 || !stored.onboarded;
        let filter = make_filter(onboarding, &accounts);
        let signer = match &stored.signer {
            Some(account) => Some(account.clone()),
            None => None,
        };
        State {
            accounts,
            network: NetworkState::with_subscription_id(subscription_id, runtime, use_light_client),
            child_bounties_raw: None,
            filter,
            extension: ExtensionState::new(signer),
            claim: None,
            layout: LayoutState::new(onboarding),
        }
    }

    /// The state the application starts in, under a session id drawn at
    /// random.
    pub fn new(runtime: SupportedRelayRuntime, use_light_client: bool, store: &LocalStore) -> (r:
        State)
        ensures
            r@ == StateView::initial(runtime, use_light_client, store@, r.network.subscription_id),
    {
        let network = NetworkState::new(runtime, use_light_client);
        Self::with_subscription_id(runtime, use_light_client, store, network.subscription_id)
    }

    /// Whether the action can be applied: following one more account
    /// needs an id above all those in use.
    pub open spec fn accepts(self, action: Action) -> bool {
        action is AddAccount ==> max_id(views(self.accounts@)) < u32::MAX
    }

    /// Tells whether the action can be applied.
    pub fn can_apply(&self, action: &Action) -> (r: bool)
        ensures
            r == self.accepts(*action),
    {
        match action {
            Action::AddAccount(_) => largest_id(&self.accounts) < u32::MAX,
            _ => true,
        }
    }

    /// Applies an action. `fresh_id` names the session that a change of
    /// network starts; no other action reads it.
    pub fn reduce_with(self, action: Action, store: LocalStore, fresh_id: SubscriptionId) -> (r: (
        State,
        LocalStore,
    ))
        requires
            self.accepts(action),
        ensures
            (r.0@, r.1@) == self@.reduce(action@, store@, fresh_id),
    {
        let ghost before = self@;
        let ghost stored = store@;
        let State { accounts, network, child_bounties_raw, filter, extension, claim, layout } =
            self;
        let runtime = network.runtime;
        match action {
            Action::AddAccount(address) => {
                if is_following(&accounts, &address) {
                    (
                        State {
                            accounts,
                            network,
                            child_bounties_raw,
                            filter,
                            extension,
                            claim,
                            layout,
                        },
                        store,
                    )
                } else {
                    let id = largest_id(&accounts) + 1;
                    let child_bounty_ids = match &child_bounties_raw {
                        Some(bounties) => linked(bounties, &address.account_id()),
                        None => BTreeSet::new(),
                    };
                    let mut accounts = accounts;
                    accounts.push(
                        Account {
                            id,
                            address,
                            identity: None,
                            disabled: false,
                            child_bounty_ids,
                            balance: Balance::new(),
                        },
                    );
                    proof {
                        assert(views(accounts@) =~= before.accounts.push(
                            new_account(before.accounts, before.child_bounties_raw, address),
                        ));
                    }
                    let copy = clone_accounts(&accounts);
                    (
                        State {
                            accounts,
                            network,
                            child_bounties_raw,
                            filter,
                            extension,
                            claim,
                            layout,
                        },
                        store.with_accounts(runtime, copy),
                    )
                }
            },
            Action::RemoveAccountId(id) => {
                let accounts = remove_account(accounts, id);
                let filter = make_filter(accounts.len() == 0, &accounts);
                let copy = clone_accounts(&accounts);
                (
                    State {
                        accounts,
                        network,
                        child_bounties_raw,
                        filter,
                        extension,
                        claim,
                        layout,
                    },
                    store.with_accounts(runtime, copy),
                )
            },
            Action::UpdateAccountIdBalance(id, balance) => {
                let accounts = set_balance(accounts, id, balance);
                (
                    State {
                        accounts,
                        network,
                        child_bounties_raw,
                        filter,
                        extension,
                        claim,
                        layout,
                    },
                    store,
                )
            },
            Action::StartClaim(ids) => (
                State {
                    accounts,
                    network,
                    child_bounties_raw,
                    filter,
                    extension,
                    claim: Some(ClaimState::new(ids)),
                    layout,
                },
                store,
            ),
            Action::ResetClaim => (
                State {
                    accounts,
                    network,
                    child_bounties_raw,
                    filter,
                    extension,
                    claim: None,
                    layout,
                },
                store,
            ),
            Action::PreparePayload => (
                State {
                    accounts,
                    network,
                    child_bounties_raw,
                    filter,
                    extension,
                    claim: with_status(claim, ClaimStatus::Preparing),
                    layout,
                },
                store,
            ),
            Action::GetSignature(payload) => (
                State {
                    accounts,
                    network,
                    child_bounties_raw,
                    filter,
                    extension,
                    claim: with_status(claim, ClaimStatus::Signing(payload)),
                    layout,
                },
                store,
            ),
            Action::SubmitWithSignature(signature) => (
                State {
                    accounts,
                    network,
                    child_bounties_raw,
                    filter,
                    extension,
                    claim: with_status(claim, ClaimStatus::Submitting(signature)),
                    layout,
                },
                store,
            ),
            Action::CompleteClaim(claimed) => {
                let accounts = strip(accounts, &claimed);
                let cache = match child_bounties_raw {
                    Some(bounties) => remove_claimed(bounties, &claimed),
                    None => ChildBounties::new(),
                };
                (
                    State {
                        accounts,
                        network,
                        child_bounties_raw: Some(cache),
                        filter,
                        extension,
                        claim: with_status(claim, ClaimStatus::Completed),
                        layout,
                    },
                    store,
                )
            },
            Action::ErrorClaim(message) => (
                State {
                    accounts,
                    network,
                    child_bounties_raw,
                    filter,
                    extension,
                    claim: with_status(claim, ClaimStatus::Error(message)),
                    layout,
                },
                store,
            ),
            Action::ConnectExtension(source) => (
                State {
                    accounts,
                    network,
                    child_bounties_raw,
                    filter,
                    extension: ExtensionState {
                        signer: extension.signer,
                        status: ExtensionStatus::Connecting(source),
                    },
                    claim,
                    layout,
                },
                store,
            ),
            Action::ChangeExtensionStatus(status) => (
                State {
                    accounts,
                    network,
                    child_bounties_raw,
                    filter,
                    extension: ExtensionState { signer: extension.signer, status },
                    claim,
                    layout,
                },
                store,
            ),
            Action::ChangeSigner(account) => {
                let copy = account.clone();
                (
                    State {
                        accounts,
                        network,
                        child_bounties_raw,
                        filter,
                        extension: ExtensionState {
                            signer: Some(account),
                            status: ExtensionStatus::Ready,
                        },
                        claim,
                        layout,
                    },
                    store.with_signer(runtime, copy),
                )
            },
            Action::ChangeNetworkStatus(status) => (
                State {
                    accounts,
                    network: NetworkState { status, ..network },
                    child_bounties_raw,
                    filter,
                    extension,
                    claim,
                    layout,
                },
                store,
            ),
            Action::ChangeNetwork(next, use_light_client) => {
                let slice = store.slice(next);
                let accounts = clone_accounts(&slice.accounts);
                let onboarding = accounts.len() == 0 || !slice.onboarded;
                let filter = make_filter(onboarding, &accounts);
                (
                    State {
                        accounts,
                        network: NetworkState::with_subscription_id(
                            fresh_id,
                            next,
                            use_light_client,
                        ),
                        child_bounties_raw: None,
                        filter,
                        extension,
                        claim,
                        layout: LayoutState {
                            is_onboarding: onboarding,
                            balance_mode: BalanceMode::TotalBalance,
                            ..layout
                        },
                    },
                    store,
                )
            },
            Action::UpdateBlockNumber(number) => (
                State {
                    accounts,
                    network: NetworkState { finalized_block_number: Some(number), ..network },
                    child_bounties_raw,
                    filter,
                    extension,
                    claim,
                    layout,
                },
                store,
            ),
            Action::UpdateChildBountiesRaw(data) => {
                let accounts = relink(accounts, &data);
                let onboarding = accounts.len() == 0 || !store.slice(runtime).onboarded;
                let filter = make_filter(onboarding, &accounts);
                let copy = clone_accounts(&accounts);
                (
                    State {
                        accounts,
                        network: NetworkState {
                            fetches_counter: network.fetches_counter.saturating_sub(1),
                            ..network
                        },
                        child_bounties_raw: Some(data),
                        filter,
                        extension,
                        claim,
                        layout,
                    },
                    store.with_accounts(runtime, copy),
                )
            },
            Action::IncreaseFetch => (
                State {
                    accounts,
                    network: NetworkState {
                        fetches_counter: network.fetches_counter.saturating_add(1),
                        ..network
                    },
                    child_bounties_raw,
                    filter,
                    extension,
                    claim,
                    layout,
                },
                store,
            ),
            Action::SetFilter(filter) => (
                State { accounts, network, child_bounties_raw, filter, extension, claim, layout },
                store,
            ),
            Action::ToggleLayoutAddAccountModal => (
                State {
                    accounts,
                    network,
                    child_bounties_raw,
                    filter,
                    extension,
                    claim,
                    layout: LayoutState {
                        is_add_account_modal_visible: !layout.is_add_account_modal_visible,
                        ..layout
                    },
                },
                store,
            ),
            Action::ChangeBalanceMode(mode) => (
                State {
                    accounts,
                    network,
                    child_bounties_raw,
                    filter,
                    extension,
                    claim,
                    layout: LayoutState { balance_mode: mode, ..layout },
                },
                store,
            ),
            Action::StartOnboarding => (
                State {
                    accounts,
                    network,
                    child_bounties_raw,
                    filter,
                    extension,
                    claim,
                    layout: LayoutState { is_onboarding: true, ..layout },
                },
                store.with_onboarded(runtime, false),
            ),
            Action::FinishOnboarding => {
                let filter = Filter::Following(following_of(&accounts));
                (
                    State {
                        accounts,
                        network,
                        child_bounties_raw,
                        filter,
                        extension,
                        claim,
                        layout: LayoutState { is_onboarding: false, ..layout },
                    },
                    store.with_onboarded(runtime, true),
                )
            },
        }
    }

    /// Applies an action; a change of network starts a session under an
    /// id drawn at random.
    pub fn reduce(self, action: Action, store: LocalStore) -> (r: (State, LocalStore))
        requires
            self.accepts(action),
        ensures
            exists|fresh_id: SubscriptionId|
                (r.0@, r.1@) == #[trigger] self@.reduce(action@, store@, fresh_id),
    {
        let fresh = NetworkState::new(self.network.runtime, false);
        self.reduce_with(action, store, fresh.subscription_id)
    }
}

} // verus!
