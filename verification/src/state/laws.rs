use vstd::prelude::*;
use crate::runtimes::support::SupportedRelayRuntime;
use crate::state::linking::{linked_ids, relinked, with_balance, without_id};
use crate::state::store::LocalStoreView;
use crate::state::{claim_with_status, new_account, ActionView, StateView};
use crate::types::accounts::{follows, following, max_id, AccountView, Balance};
use crate::types::child_bounties::{ChildBounty, ChildBountyId, FilterView};
use crate::types::claims::{ClaimState, ClaimStatus};
use crate::types::network::SubscriptionId;

verus! {

/// Whether what local storage holds of the current chain's accounts
/// names the followed accounts: the same ids and addresses, in order.
pub open spec fn persisted_matches(state: StateView, store: LocalStoreView) -> bool {
    names_match(store.slice(state.network.runtime).accounts, state.accounts)
}

/// A state built from local storage matches what storage holds.
pub proof fn initial_state_matches_storage(
    runtime: SupportedRelayRuntime,
    use_light_client: bool,
    store: LocalStoreView,
    subscription_id: SubscriptionId,
)
    ensures
        persisted_matches(
            StateView::initial(runtime, use_light_client, store, subscription_id),
            store,
        ),
{
}

/// Whether a list of stored accounts names the given accounts: the same
/// ids and addresses, in order.
pub open spec fn names_match(stored: Seq<AccountView>, accounts: Seq<AccountView>) -> bool {
    &&& stored.len() == accounts.len()
    &&& forall|i: int|
        0 <= i < stored.len() ==> (#[trigger] stored[i]).id == accounts[i].id && stored[i].address
            == accounts[i].address
}

/// Stored and followed accounts stay in step: whatever the action, what
/// storage holds of the accounts still names the followed accounts
/// afterwards.
pub proof fn reduce_keeps_storage_in_step(
    state: StateView,
    action: ActionView,
    store: LocalStoreView,
    fresh_id: SubscriptionId,
)
    requires
        persisted_matches(state, store),
    ensures
        persisted_matches(
            state.reduce(action, store, fresh_id).0,
            state.reduce(action, store, fresh_id).1,
        ),
{
    let after = state.reduce(action, store, fresh_id);
    let runtime = state.network.runtime;
    let stored = store.slice(runtime).accounts;
    assert(names_match(stored, state.accounts));
    match action {
        ActionView::AddAccount(address) => {
            if !follows(state.accounts, address.text()) {
                let accounts = state.accounts.push(
                    new_account(state.accounts, state.child_bounties_raw, address),
                );
                assert(after.0.accounts == accounts);
                assert(after.1.slice(runtime).accounts == accounts);
                assert(names_match(accounts, accounts));
            }
        },
        ActionView::RemoveAccountId(id) => {
            let accounts = without_id(state.accounts, id);
            assert(after.1.slice(runtime).accounts == accounts);
            assert(names_match(accounts, accounts));
        },
        ActionView::UpdateAccountIdBalance(id, balance) => {
            lemma_with_balance_keeps_names(state.accounts, id, balance);
            assert(after.1 == store);
            assert(names_match(stored, after.0.accounts));
        },
        ActionView::CompleteClaim(claimed) => {
            assert(after.1 == store);
            assert(names_match(stored, after.0.accounts));
        },
        ActionView::ChangeNetwork(next, light) => {
            assert(after.1 == store);
            assert(after.0.network.runtime == next);
            assert(names_match(store.slice(next).accounts, after.0.accounts));
        },
        ActionView::UpdateChildBountiesRaw(data) => {
            let accounts = relinked(state.accounts, data);
            assert(after.1.slice(runtime).accounts == accounts);
            assert(names_match(accounts, accounts));
        },
        ActionView::ChangeSigner(account) => {
            assert(after.0.accounts == state.accounts);
            assert(after.1.slice(runtime).accounts == stored);
        },
        ActionView::StartOnboarding => {
            assert(after.0.accounts == state.accounts);
            assert(after.1.slice(runtime).accounts == stored);
        },
        ActionView::FinishOnboarding => {
            assert(after.0.accounts == state.accounts);
            assert(after.1.slice(runtime).accounts == stored);
        },
        _ => {
            assert(after.0.accounts == state.accounts);
            assert(after.0.network.runtime == runtime);
            assert(after.1 == store);
        },
    }
}

/// Replacing a balance changes no id and no address.
pub proof fn lemma_with_balance_keeps_names(accounts: Seq<AccountView>, id: u32, balance: Balance)
    ensures
        with_balance(accounts, id, balance).len() == accounts.len(),
        forall|i: int|
            0 <= i < accounts.len() ==> (#[trigger] with_balance(accounts, id, balance)[i]).id
                == accounts[i].id && with_balance(accounts, id, balance)[i].address
                == accounts[i].address,
    decreases accounts.len(),
{
    if accounts.len() > 0 && accounts.first().id != id {
        lemma_with_balance_keeps_names(accounts.drop_first(), id, balance);
    }
}

/// Linking accounts to the cached bounties twice gives what linking once
/// gives, and after linking an account holds a bounty's id exactly if the
/// cache holds the bounty and names the account as its beneficiary.
pub proof fn linking_is_idempotent(accounts: Seq<AccountView>, bounties: Map<u32, ChildBounty>)
    ensures
        relinked(relinked(accounts, bounties), bounties) == relinked(accounts, bounties),
        forall|i: int, id: u32|
            0 <= i < accounts.len() ==> (#[trigger] relinked(accounts, bounties)[i].child_bounty_ids.contains(
                id,
            ) <==> bounties.contains_key(id) && bounties[id].beneficiary
                == accounts[i].address.id()),
{
    assert(relinked(relinked(accounts, bounties), bounties) =~= relinked(accounts, bounties));
}

/// Completing a claim cleans both caches: afterwards neither the cached
/// bounties nor any account's linked ids hold a claimed id, and every
/// cached bounty that was not claimed is still cached, unchanged.
pub proof fn completed_claim_cleans_caches(
    state: StateView,
    claimed: Seq<ChildBountyId>,
    store: LocalStoreView,
    fresh_id: SubscriptionId,
)
    ensures
        ({
            let after = state.reduce(ActionView::CompleteClaim(claimed), store, fresh_id).0;
            &&& after.child_bounties_raw is Some
            &&& forall|id: u32|
                claimed.contains(id) ==> !(#[trigger] after.child_bounties_raw->0.contains_key(id))
            &&& forall|i: int, id: u32|
                0 <= i < after.accounts.len() && claimed.contains(id)
                    ==> !(#[trigger] after.accounts[i].child_bounty_ids.contains(id))
            &&& after.accounts.len() == state.accounts.len()
            &&& forall|id: u32|
                state.child_bounties_raw is Some && state.child_bounties_raw->0.contains_key(id)
                    && !claimed.contains(id) ==> (#[trigger] after.child_bounties_raw->0.contains_key(
                    id,
                )) && after.child_bounties_raw->0[id] == state.child_bounties_raw->0[id]
            &&& after.claim == claim_with_status(state.claim, ClaimStatus::Completed)
        }),
{
}

/// A state built from storage that holds no followed account is in
/// onboarding and shows every bounty.
pub proof fn fresh_state_without_accounts_onboards(
    runtime: SupportedRelayRuntime,
    use_light_client: bool,
    store: LocalStoreView,
    subscription_id: SubscriptionId,
)
    requires
        store.slice(runtime).accounts.len() == 0,
    ensures
        ({
            let state = StateView::initial(runtime, use_light_client, store, subscription_id);
            &&& state.accounts.len() == 0
            &&& state.layout.is_onboarding
            &&& state.filter == FilterView::All
        }),
{
}

/// Finishing onboarding with at least one followed account ends it,
/// shows the followed accounts' bounties, and is remembered: a state
/// built anew from what storage then holds is not in onboarding either.
pub proof fn finished_onboarding_is_remembered(
    state: StateView,
    store: LocalStoreView,
    fresh_id: SubscriptionId,
    subscription_id: SubscriptionId,
)
    requires
        state.accounts.len() >= 1,
        persisted_matches(state, store),
    ensures
        ({
            let after = state.reduce(ActionView::FinishOnboarding, store, fresh_id);
            let again = StateView::initial(
                state.network.runtime,
                state.network.use_light_client_as_network_provider,
                after.1,
                subscription_id,
            );
            &&& !after.0.layout.is_onboarding
            &&& after.0.filter == FilterView::Following(following(state.accounts))
            &&& !again.layout.is_onboarding
            &&& again.filter == FilterView::Following(following(state.accounts))
        }),
{
    let after = state.reduce(ActionView::FinishOnboarding, store, fresh_id);
    let stored = after.1.slice(state.network.runtime).accounts;
    assert(following(stored) =~= following(state.accounts));
}

/// A claim passes through its stages in order. Opened, it is
/// initializing; prepared, signed with the payload, submitted with the
/// signature and completed, it holds each time the status of that stage
/// with what the stage was given, every step is one that the flow
/// allows, the bounties claimed together stay the same, and at the end no
/// claimed bounty is cached any more.
pub proof fn claim_passes_through_its_stages(
    state: StateView,
    ids: crate::types::child_bounties::ChildBountiesIds,
    payload: String,
    signature: Vec<u8>,
    claimed: Seq<ChildBountyId>,
    store: LocalStoreView,
    fresh_id: SubscriptionId,
)
    ensures
        ({
            let opened = state.reduce(ActionView::StartClaim(ids), store, fresh_id);
            let prepared = opened.0.reduce(ActionView::PreparePayload, opened.1, fresh_id);
            let signing = prepared.0.reduce(ActionView::GetSignature(payload), prepared.1, fresh_id);
            let submitting = signing.0.reduce(
                ActionView::SubmitWithSignature(signature),
                signing.1,
                fresh_id,
            );
            let completed = submitting.0.reduce(
                ActionView::CompleteClaim(claimed),
                submitting.1,
                fresh_id,
            );
            &&& opened.0.claim == Some(
                ClaimState { child_bounty_ids: ids, status: ClaimStatus::Initializing },
            )
            &&& prepared.0.claim == Some(
                ClaimState { child_bounty_ids: ids, status: ClaimStatus::Preparing },
            )
            &&& signing.0.claim == Some(
                ClaimState { child_bounty_ids: ids, status: ClaimStatus::Signing(payload) },
            )
            &&& submitting.0.claim == Some(
                ClaimState { child_bounty_ids: ids, status: ClaimStatus::Submitting(signature) },
            )
            &&& completed.0.claim == Some(
                ClaimState { child_bounty_ids: ids, status: ClaimStatus::Completed },
            )
            &&& opened.0.claim->0.status.spec_may_become(prepared.0.claim->0.status)
            &&& prepared.0.claim->0.status.spec_may_become(signing.0.claim->0.status)
            &&& signing.0.claim->0.status.spec_may_become(submitting.0.claim->0.status)
            &&& submitting.0.claim->0.status.spec_may_become(completed.0.claim->0.status)
            &&& completed.0.child_bounties_raw is Some
            &&& forall|id: u32|
                claimed.contains(id) ==> !(#[trigger] completed.0.child_bounties_raw->0.contains_key(
                    id,
                ))
        }),
{
}

/// Whether accounts are told apart: ids start at one, and no two
/// accounts share an id or an address.
pub open spec fn told_apart(accounts: Seq<AccountView>) -> bool {
    &&& forall|i: int| 0 <= i < accounts.len() ==> (#[trigger] accounts[i]).id >= 1
    &&& forall|i: int, j: int|
        0 <= i < j < accounts.len() ==> (#[trigger] accounts[i]).id != (#[trigger] accounts[j]).id
            && accounts[i].address.text() != accounts[j].address.text()
}

/// Whether the accounts stored for every chain are told apart.
pub open spec fn stored_told_apart(store: LocalStoreView) -> bool {
    forall|runtime: SupportedRelayRuntime| told_apart(#[trigger] store.slice(runtime).accounts)
}

/// A state built from storage whose accounts are told apart follows
/// accounts that are told apart.
pub proof fn initial_accounts_are_told_apart(
    runtime: SupportedRelayRuntime,
    use_light_client: bool,
    store: LocalStoreView,
    subscription_id: SubscriptionId,
)
    requires
        stored_told_apart(store),
    ensures
        told_apart(StateView::initial(runtime, use_light_client, store, subscription_id).accounts),
{
    assert(told_apart(store.slice(runtime).accounts));
}

/// No id is larger than the largest.
pub proof fn lemma_max_id_bounds(accounts: Seq<AccountView>)
    ensures
        forall|i: int| 0 <= i < accounts.len() ==> (#[trigger] accounts[i]).id <= max_id(accounts),
    decreases accounts.len(),
{
    if accounts.len() > 0 {
        lemma_max_id_bounds(accounts.drop_last());
        assert forall|i: int| 0 <= i < accounts.len() implies (#[trigger] accounts[i]).id <= max_id(
            accounts,
        ) by {
            if i < accounts.len() - 1 {
                assert(accounts.drop_last()[i] == accounts[i]);
            }
        }
    }
}

/// Dropping an account leaves the others told apart, and adds none.
pub proof fn lemma_without_id_told_apart(accounts: Seq<AccountView>, id: u32)
    requires
        told_apart(accounts),
    ensures
        told_apart(without_id(accounts, id)),
        forall|k: int|
            0 <= k < without_id(accounts, id).len() ==> accounts.contains(
                #[trigger] without_id(accounts, id)[k],
            ),
    decreases accounts.len(),
{
    reveal(Seq::filter);
    if accounts.len() > 0 {
        let head = accounts.drop_last();
        let last = accounts.last();
        assert forall|i: int| 0 <= i < head.len() implies (#[trigger] head[i]) == accounts[i] by {}
        lemma_without_id_told_apart(head, id);
        let kept = without_id(head, id);
        let all = without_id(accounts, id);
        assert forall|k: int| 0 <= k < kept.len() implies accounts.contains(#[trigger] kept[k])
            && kept[k].id != last.id && kept[k].address.text() != last.address.text() by {
            let j = choose|j: int| 0 <= j < head.len() && head[j] == kept[k];
            assert(accounts[j] == kept[k]);
        }
        if last.id != id {
            assert(all == kept.push(last));
            assert(accounts[accounts.len() - 1] == last);
            assert forall|k: int| 0 <= k < all.len() implies accounts.contains(#[trigger] all[k]) by {
                if k < kept.len() {
                    assert(all[k] == kept[k]);
                }
            }
            assert forall|i: int, j: int| 0 <= i < j < all.len() implies (#[trigger] all[i]).id != (
            #[trigger] all[j]).id && all[i].address.text() != all[j].address.text() by {
                assert(all[i] == kept[i]);
                if j < kept.len() {
                    assert(all[j] == kept[j]);
                }
            }
        } else {
            assert(all == kept);
        }
    }
}

/// Accounts stay told apart: whatever the action, afterwards the
/// followed accounts still have ids from one up, and no two of them, nor
/// two of those stored for a chain, share an id or an address.
pub proof fn reduce_keeps_accounts_told_apart(
    state: StateView,
    action: ActionView,
    store: LocalStoreView,
    fresh_id: SubscriptionId,
)
    requires
        told_apart(state.accounts),
        stored_told_apart(store),
        action is AddAccount ==> max_id(state.accounts) < u32::MAX,
    ensures
        told_apart(state.reduce(action, store, fresh_id).0.accounts),
        stored_told_apart(state.reduce(action, store, fresh_id).1),
{
    let after = state.reduce(action, store, fresh_id);
    let runtime = state.network.runtime;
    let before = state.accounts;
    match action {
        ActionView::AddAccount(address) => {
            if !follows(before, address.text()) {
                lemma_max_id_bounds(before);
                let added = new_account(before, state.child_bounties_raw, address);
                let accounts = before.push(added);
                assert(told_apart(accounts)) by {
                    assert forall|i: int, j: int| 0 <= i < j < accounts.len() implies (
                    #[trigger] accounts[i]).id != (#[trigger] accounts[j]).id
                        && accounts[i].address.text() != accounts[j].address.text() by {
                        assert(accounts[i] == before[i]);
                        if j < before.len() {
                            assert(accounts[j] == before[j]);
                        }
                    }
                }
                lemma_stored_after_write(store, runtime, accounts);
            }
        },
        ActionView::RemoveAccountId(id) => {
            lemma_without_id_told_apart(before, id);
            lemma_stored_after_write(store, runtime, without_id(before, id));
        },
        ActionView::UpdateAccountIdBalance(id, balance) => {
            lemma_with_balance_keeps_names(before, id, balance);
        },
        ActionView::CompleteClaim(claimed) => {},
        ActionView::ChangeNetwork(next, light) => {
            assert(told_apart(store.slice(next).accounts));
        },
        ActionView::UpdateChildBountiesRaw(data) => {
            assert(told_apart(relinked(before, data)));
            lemma_stored_after_write(store, runtime, relinked(before, data));
        },
        ActionView::ChangeSigner(account) => {
            assert forall|chain: SupportedRelayRuntime| told_apart(
                #[trigger] after.1.slice(chain).accounts,
            ) by {
                assert(after.1.slice(chain).accounts == store.slice(chain).accounts);
            }
        },
        ActionView::StartOnboarding => {
            assert forall|chain: SupportedRelayRuntime| told_apart(
                #[trigger] after.1.slice(chain).accounts,
            ) by {
                assert(after.1.slice(chain).accounts == store.slice(chain).accounts);
            }
        },
        ActionView::FinishOnboarding => {
            assert forall|chain: SupportedRelayRuntime| told_apart(
                #[trigger] after.1.slice(chain).accounts,
            ) by {
                assert(after.1.slice(chain).accounts == store.slice(chain).accounts);
            }
        },
        _ => {
            assert(after.0.accounts == before);
            assert(after.1 == store);
        },
    }
}

/// Writing accounts that are told apart keeps storage told apart.
pub proof fn lemma_stored_after_write(
    store: LocalStoreView,
    runtime: SupportedRelayRuntime,
    accounts: Seq<AccountView>,
)
    requires
        stored_told_apart(store),
        told_apart(accounts),
    ensures
        stored_told_apart(store.with_accounts(runtime, accounts)),
{
    let after = store.with_accounts(runtime, accounts);
    assert forall|chain: SupportedRelayRuntime| told_apart(
        #[trigger] after.slice(chain).accounts,
    ) by {
        if chain != runtime {
            assert(after.slice(chain) == store.slice(chain));
        }
    }
}

/// Whether the accounts' links agree with the cache: where bounties
/// are cached, every account is linked to exactly those that name it as
/// beneficiary.
pub open spec fn links_agree(state: StateView) -> bool {
    state.child_bounties_raw matches Some(bounties) ==> forall|i: int|
        0 <= i < state.accounts.len() ==> (#[trigger] state.accounts[i]).child_bounty_ids
            == linked_ids(bounties, state.accounts[i].address.id())
}

/// A state built from storage has no cache, so its links agree with it.
pub proof fn initial_links_agree(
    runtime: SupportedRelayRuntime,
    use_light_client: bool,
    store: LocalStoreView,
    subscription_id: SubscriptionId,
)
    ensures
        links_agree(StateView::initial(runtime, use_light_client, store, subscription_id)),
{
}

/// Links and cache stay in agreement: whatever the action, afterwards
/// every account is still linked to exactly the cached bounties that
/// name it. The one action left out is the completion of a claim while
/// nothing is cached, which leaves an empty cache beside whatever links
/// the accounts had.
pub proof fn reduce_keeps_links_in_agreement(
    state: StateView,
    action: ActionView,
    store: LocalStoreView,
    fresh_id: SubscriptionId,
)
    requires
        links_agree(state),
        action is CompleteClaim ==> state.child_bounties_raw is Some,
    ensures
        links_agree(state.reduce(action, store, fresh_id).0),
{
    let after = state.reduce(action, store, fresh_id).0;
    let before = state.accounts;
    match action {
        ActionView::AddAccount(address) => {
            if !follows(before, address.text()) && state.child_bounties_raw is Some {
                let bounties = state.child_bounties_raw->0;
                let added = new_account(before, state.child_bounties_raw, address);
                assert forall|i: int| 0 <= i < after.accounts.len() implies (
                #[trigger] after.accounts[i]).child_bounty_ids == linked_ids(
                    bounties,
                    after.accounts[i].address.id(),
                ) by {
                    if i < before.len() {
                        assert(after.accounts[i] == before[i]);
                    }
                }
            }
        },
        ActionView::RemoveAccountId(id) => {
            if state.child_bounties_raw is Some {
                let bounties = state.child_bounties_raw->0;
                lemma_without_id_keeps_members(before, id);
                assert forall|i: int| 0 <= i < after.accounts.len() implies (
                #[trigger] after.accounts[i]).child_bounty_ids == linked_ids(
                    bounties,
                    after.accounts[i].address.id(),
                ) by {
                    let j = choose|j: int| 0 <= j < before.len() && before[j] == after.accounts[i];
                    assert(before[j].child_bounty_ids == linked_ids(
                        bounties,
                        before[j].address.id(),
                    ));
                }
            }
        },
        ActionView::UpdateAccountIdBalance(id, balance) => {
            lemma_with_balance_keeps_links(before, id, balance);
        },
        ActionView::CompleteClaim(claimed) => {
            let bounties = state.child_bounties_raw->0;
            let left = bounties.remove_keys(claimed.to_set());
            assert forall|i: int| 0 <= i < after.accounts.len() implies (
            #[trigger] after.accounts[i]).child_bounty_ids == linked_ids(
                left,
                after.accounts[i].address.id(),
            ) by {
                assert(before[i].child_bounty_ids == linked_ids(bounties, before[i].address.id()));
                assert(after.accounts[i].child_bounty_ids =~= linked_ids(
                    left,
                    after.accounts[i].address.id(),
                ));
            }
        },
        ActionView::UpdateChildBountiesRaw(data) => {},
        ActionView::ChangeNetwork(next, light) => {},
        _ => {
            assert(after.accounts == before);
            assert(after.child_bounties_raw == state.child_bounties_raw);
        },
    }
}

/// What is left after dropping an account was there before.
pub proof fn lemma_without_id_keeps_members(accounts: Seq<AccountView>, id: u32)
    ensures
        forall|k: int|
            0 <= k < without_id(accounts, id).len() ==> accounts.contains(
                #[trigger] without_id(accounts, id)[k],
            ),
    decreases accounts.len(),
{
    reveal(Seq::filter);
    if accounts.len() > 0 {
        let head = accounts.drop_last();
        lemma_without_id_keeps_members(head, id);
        let kept = without_id(head, id);
        let all = without_id(accounts, id);
        assert forall|k: int| 0 <= k < all.len() implies accounts.contains(#[trigger] all[k]) by {
            if k < kept.len() {
                assert(all[k] == kept[k]);
                let j = choose|j: int| 0 <= j < head.len() && head[j] == kept[k];
                assert(accounts[j] == kept[k]);
            } else {
                assert(all[k] == accounts[accounts.len() - 1]);
            }
        }
    }
}

/// Replacing a balance changes no link and no address.
pub proof fn lemma_with_balance_keeps_links(accounts: Seq<AccountView>, id: u32, balance: Balance)
    ensures
        with_balance(accounts, id, balance).len() == accounts.len(),
        forall|i: int|
            0 <= i < accounts.len() ==> (#[trigger] with_balance(
                accounts,
                id,
                balance,
            )[i]).child_bounty_ids == accounts[i].child_bounty_ids && with_balance(
                accounts,
                id,
                balance,
            )[i].address == accounts[i].address,
    decreases accounts.len(),
{
    if accounts.len() > 0 && accounts.first().id != id {
        lemma_with_balance_keeps_links(accounts.drop_first(), id, balance);
    }
}

} // verus!
