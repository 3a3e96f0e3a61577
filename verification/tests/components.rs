use claimeer::components::accounts::{
    account_balance, account_item, balance_button_pressed, card_order, is_balance_button_disabled,
    title_of, total, total_balance, total_balances_card, unfollow_pressed, Ripeness, Scope,
};
use claimeer::components::buttons::{
    add_account_pressed, claim_button, claimable_pairs, due, network_provider_icon_button,
    network_subscriber, polkassembly_link, query_after_switch, query_after_toggle, subsquare_link,
};
use claimeer::components::child_bounties::{
    child_bounties_body, child_bounties_card, child_bounties_filters, child_bounties_stats,
    child_bounties_title, description_matches, is_search_offered, parent_chips, rows, toggle_all,
    toggle_parent, BodyView, CardView, ChildBountiesBodyProps, ChildBountiesTitleProps, TitleView,
};
use claimeer::components::chips::account_chip;
use claimeer::components::icons::identicon;
use claimeer::components::inputs::{validate_account, AccountInput, FilterInput};
use claimeer::components::items::{
    child_bounty_item, child_bounty_item_small, chip_label, filter_item, is_highlighted,
    reference, ClaimBadge, Dropdown, FollowView,
};
use claimeer::components::modals::{
    add_account_cancelled, add_account_entered, add_account_modal_visible, claim_modal_title,
    review_ids, sign_button, sign_button_pressed, signer_chosen, wallet_button, wallet_chosen,
    ClaimModal, ModalRequest,
};
use claimeer::components::nav::{footer, navbar};
use claimeer::components::steps::{
    address_entered, following_message, timer_fired, OnboardingSteps,
};
use claimeer::router::Query;
use claimeer::runtimes::support::SupportedRelayRuntime;
use claimeer::state::store::LocalStore;
use claimeer::state::{Action, State};
use claimeer::types::accounts::{AccountId, Address, Balance};
use claimeer::types::child_bounties::{ChildBounties, ChildBounty, Filter, Status};
use claimeer::types::claims::{ClaimState, ClaimStatus};
use claimeer::types::extensions::{
    extensions_supported, ExtensionAccount, ExtensionState, ExtensionStatus,
};
use claimeer::types::layout::BalanceMode;
use claimeer::types::network::NetworkStatus;
use std::collections::BTreeSet;

const ALICE: &str = "5GrwvaEF5zXb26Fz9rcQpDWS57CtERHpNehXCPcNoHGKutQY";
const BOB: &str = "5FHneW46xGXgs5mUiveU4sbTyGBzmstUspZC92UhjJM694ty";
const CHARLIE: &str = "5FLSigC9HGRKVhB9FiEo4Y3koPsNmBmLJbpXg2mp1hXcS59Y";
const ALICE_ON_POLKADOT: &str = "15oF4uVJwmo4TdGW7VfQxNLavjCXviqxT9S1MgbjMNHr6Sp5";
const UNIT: u128 = 10_000_000_000;

fn id_of(address: &str) -> AccountId {
    AccountId::from_ss58(address).expect("a valid address")
}

fn bounty(id: u32, parent_id: u32, who: &str, unlock_at: u32, value: u128, text: &str) -> ChildBounty {
    ChildBounty {
        id,
        parent_id,
        description: text.to_string(),
        value,
        status: Status::Pending,
        beneficiary: id_of(who),
        beneficiary_identity: None,
        unlock_at,
    }
}

fn cache() -> ChildBounties {
    let mut map = ChildBounties::new();
    for b in [
        bounty(1, 7, ALICE, 50, UNIT, "Docs for the Runtime"),
        bounty(2, 7, BOB, 150, 2 * UNIT, "Audit"),
        bounty(3, 8, ALICE, 150, 4 * UNIT, "runtime upgrade"),
        bounty(4, 9, CHARLIE, 50, 8 * UNIT, "Design"),
    ] {
        map.insert(b.id, b);
    }
    map
}

/// Alice and Bob followed, the cache above, block 100, onboarding done.
fn scene() -> State {
    let mut store = LocalStore::empty();
    let mut state = State::with_subscription_id(SupportedRelayRuntime::Polkadot, true, &store, 1);
    for action in [
        Action::AddAccount(Address::parse(ALICE).unwrap()),
        Action::AddAccount(Address::parse(BOB).unwrap()),
        Action::FinishOnboarding,
        Action::ChangeNetworkStatus(NetworkStatus::Active),
        Action::IncreaseFetch,
        Action::UpdateChildBountiesRaw(cache()),
        Action::UpdateBlockNumber(100),
        Action::UpdateAccountIdBalance(1, Balance { free: 3 * UNIT, reserved: UNIT }),
        Action::UpdateAccountIdBalance(2, Balance { free: UNIT / 2, reserved: 0 }),
    ] {
        let next = state.reduce_with(action, store, 0);
        state = next.0;
        store = next.1;
    }
    state
}

fn empty_state() -> State {
    State::with_subscription_id(SupportedRelayRuntime::Polkadot, true, &LocalStore::empty(), 1)
}

fn wallet_account(name: &str, address: &str) -> ExtensionAccount {
    ExtensionAccount {
        name: name.to_string(),
        source: "polkadot-js".to_string(),
        account_type: "sr25519".to_string(),
        address: address.to_string(),
    }
}

#[test]
fn totals_by_scope_and_ripeness() {
    let data = cache();
    let everything = Filter::All;
    assert_eq!(total(&data, &Scope::Filtered(&everything), Ripeness::Any), Some(15 * UNIT));
    assert_eq!(total(&data, &Scope::Filtered(&everything), Ripeness::Claimable(100)), Some(9 * UNIT));
    assert_eq!(total(&data, &Scope::Filtered(&everything), Ripeness::Pending(100)), Some(6 * UNIT));
    let following = Filter::Following(vec![id_of(ALICE)]);
    assert_eq!(total(&data, &Scope::Filtered(&following), Ripeness::Any), Some(5 * UNIT));
    assert_eq!(total(&data, &Scope::Filtered(&following), Ripeness::Pending(100)), Some(4 * UNIT));
    let linked = BTreeSet::from([2, 4, 9]);
    assert_eq!(total(&data, &Scope::Linked(&linked), Ripeness::Any), Some(10 * UNIT));
    assert_eq!(total(&data, &Scope::Linked(&linked), Ripeness::Claimable(100)), Some(8 * UNIT));
    // At the block of the unlock a bounty is still pending.
    assert_eq!(total(&data, &Scope::Filtered(&everything), Ripeness::Claimable(50)), Some(0));
    assert_eq!(total(&data, &Scope::Filtered(&everything), Ripeness::Claimable(51)), Some(9 * UNIT));
    assert_eq!(total(&ChildBounties::new(), &Scope::Filtered(&everything), Ripeness::Any), Some(0));
}

#[test]
fn total_that_does_not_fit_is_not_given() {
    let mut data = ChildBounties::new();
    data.insert(1, bounty(1, 7, ALICE, 0, u128::MAX, ""));
    data.insert(2, bounty(2, 7, ALICE, 0, 1, ""));
    assert_eq!(total(&data, &Scope::Filtered(&Filter::All), Ripeness::Any), None);
    assert_eq!(total(&data, &Scope::Filtered(&Filter::Claimable(vec![1])), Ripeness::Any), Some(u128::MAX));
}

#[test]
fn card_of_totals_in_each_mode() {
    let mut state = scene();
    let runtime = SupportedRelayRuntime::Polkadot;
    assert_eq!(total_balance(&state.accounts), Some(4 * UNIT + UNIT / 2));
    let readout = total_balances_card(&state, runtime).expect("a total");
    assert_eq!((readout.title, readout.amount.as_str(), readout.unit), ("Total balance", "4.50", "DOT"));
    state.layout.balance_mode = BalanceMode::TotalAwarded;
    let readout = total_balances_card(&state, runtime).unwrap();
    assert_eq!((readout.title, readout.amount.as_str()), ("Total awarded", "7.0"));
    state.layout.balance_mode = BalanceMode::TotalPending;
    let readout = total_balances_card(&state, runtime).unwrap();
    assert_eq!((readout.title, readout.amount.as_str()), ("Total pending", "6.0"));
    state.layout.balance_mode = BalanceMode::TotalClaimable;
    let readout = total_balances_card(&state, runtime).unwrap();
    assert_eq!((readout.title, readout.amount.as_str()), ("Total claimable", "1.0"));
    // The totals follow the active filter.
    state.filter = Filter::All;
    assert_eq!(total_balances_card(&state, runtime).unwrap().amount, "9.0");
    assert_eq!(title_of(BalanceMode::TotalPending), "Total pending");
}

#[test]
fn card_of_totals_hides_what_it_cannot_know() {
    let mut state = empty_state();
    let runtime = SupportedRelayRuntime::Polkadot;
    // No balance at all.
    assert!(total_balances_card(&state, runtime).is_none());
    // No cache.
    state.layout.balance_mode = BalanceMode::TotalAwarded;
    assert!(total_balances_card(&state, runtime).is_none());
    // A cache, but no finalized block.
    state.child_bounties_raw = Some(cache());
    assert_eq!(total_balances_card(&state, runtime).unwrap().amount, "15.0");
    state.layout.balance_mode = BalanceMode::TotalClaimable;
    assert!(total_balances_card(&state, runtime).is_none());
    state.network.finalized_block_number = Some(100);
    assert_eq!(total_balances_card(&state, runtime).unwrap().amount, "9.0");
}

#[test]
fn amounts_on_the_card_of_an_account() {
    let mut state = scene();
    let runtime = SupportedRelayRuntime::Polkadot;
    let alice = state.accounts[0].clone();
    assert_eq!(account_balance(&alice, &state, runtime), Some("4.0".to_string()));
    state.layout.balance_mode = BalanceMode::TotalAwarded;
    assert_eq!(account_balance(&alice, &state, runtime), Some("5.0".to_string()));
    state.layout.balance_mode = BalanceMode::TotalPending;
    assert_eq!(account_balance(&alice, &state, runtime), Some("4.0".to_string()));
    state.layout.balance_mode = BalanceMode::TotalClaimable;
    assert_eq!(account_balance(&alice, &state, runtime), Some("1.0".to_string()));
    state.network.finalized_block_number = None;
    assert_eq!(account_balance(&alice, &state, runtime), None);
}

#[test]
fn balance_buttons() {
    let mut state = scene();
    // Active, but a fetch is under way: the network is busy.
    state.network.fetches_counter = 1;
    assert!(is_balance_button_disabled(&state, BalanceMode::TotalBalance));
    assert!(is_balance_button_disabled(&state, BalanceMode::TotalAwarded));
    state.network.fetches_counter = 0;
    assert!(!is_balance_button_disabled(&state, BalanceMode::TotalAwarded));
    state.layout.balance_mode = BalanceMode::TotalAwarded;
    assert!(is_balance_button_disabled(&state, BalanceMode::TotalAwarded));
    assert!(!is_balance_button_disabled(&state, BalanceMode::TotalBalance));
    state.network.status = NetworkStatus::Inactive;
    assert!(is_balance_button_disabled(&state, BalanceMode::TotalClaimable));
    assert!(!is_balance_button_disabled(&state, BalanceMode::TotalBalance));
    assert!(matches!(
        balance_button_pressed(BalanceMode::TotalPending),
        Action::ChangeBalanceMode(BalanceMode::TotalPending)
    ));
}

#[test]
fn cards_of_accounts() {
    let state = scene();
    let card = account_item(&state.accounts[0]);
    assert_eq!((card.id, card.label.as_str(), card.badge), (1, "5Grw...utQY", Some(2)));
    let mut nobody = state.accounts[1].clone();
    nobody.child_bounty_ids.clear();
    assert_eq!(account_item(&nobody).badge, None);
    assert_eq!(card_order(&state.accounts), vec![2, 1]);
    assert!(matches!(unfollow_pressed(2), Action::RemoveAccountId(2)));
}

#[test]
fn claim_button_counts_what_is_due() {
    let state = scene();
    assert_eq!(claimable_pairs(&state), vec![(7, 1)]);
    let button = claim_button(&state);
    assert!(button.visible);
    assert_eq!(button.badge, 1);
    assert!(matches!(button.action, Action::StartClaim(ref ids) if ids == &vec![(7, 1)]));
    let mut later = scene();
    later.network.finalized_block_number = Some(151);
    assert_eq!(claimable_pairs(&later), vec![(7, 1), (7, 2), (8, 3)]);
}

#[test]
fn claim_button_hides_without_anything_due() {
    let mut state = scene();
    state.network.finalized_block_number = Some(50);
    let button = claim_button(&state);
    assert!(!button.visible);
    assert_eq!(button.badge, 0);
    state.network.finalized_block_number = None;
    assert!(!claim_button(&state).visible);
    assert!(!claim_button(&empty_state()).visible);
    let b = bounty(1, 7, ALICE, 50, 1, "");
    assert!(due(&b, &vec![id_of(ALICE)], 51));
    assert!(!due(&b, &vec![id_of(ALICE)], 50));
    assert!(!due(&b, &vec![id_of(BOB)], 51));
}

#[test]
fn links_to_the_explorers() {
    assert_eq!(
        subsquare_link(SupportedRelayRuntime::Polkadot, 42),
        "https://polkadot.subsquare.io/treasury/child-bounties/42"
    );
    assert_eq!(
        polkassembly_link(SupportedRelayRuntime::Kusama, 1234),
        "https://kusama.polkassembly.io/child_bounty/1234"
    );
}

#[test]
fn switch_between_chains() {
    let mut state = scene();
    let view = network_subscriber(SupportedRelayRuntime::Polkadot, &state);
    assert_eq!((view.target, view.label, view.disabled), (SupportedRelayRuntime::Kusama, "Switch to Kusama", false));
    state.network.status = NetworkStatus::Initializing;
    let view = network_subscriber(SupportedRelayRuntime::Kusama, &state);
    assert_eq!((view.target, view.label, view.disabled), (SupportedRelayRuntime::Polkadot, "Switch to Polkadot", true));
    assert_eq!(network_subscriber(SupportedRelayRuntime::Paseo, &state).target, SupportedRelayRuntime::Polkadot);
    assert_eq!(footer(&state, SupportedRelayRuntime::Paseo), network_subscriber(SupportedRelayRuntime::Paseo, &state));
    let query = Query { chain: SupportedRelayRuntime::Polkadot, lc: false, bounties: vec![7] };
    assert_eq!(
        query_after_switch(&query, SupportedRelayRuntime::Kusama),
        Query { chain: SupportedRelayRuntime::Kusama, lc: false, bounties: vec![] }
    );
    assert_eq!(
        query_after_toggle(&query),
        Query { chain: SupportedRelayRuntime::Polkadot, lc: true, bounties: vec![] }
    );
}

#[test]
fn provider_button_and_navbar() {
    let mut state = scene();
    let button = network_provider_icon_button(&state);
    assert_eq!((button.tooltip, button.light_client, button.color), ("Connected via light client", true, "text-gray-900"));
    state.network.finalized_block_number = Some(21_345_678);
    state.network.fetches_counter = 1;
    let bar = navbar(&state, SupportedRelayRuntime::Kusama);
    assert!(!bar.synchronizing && bar.busy);
    assert_eq!(bar.block, Some("#21,345,678".to_string()));
    assert_eq!((bar.chain, bar.class.as_str()), ("Kusama", "kusama"));
    let start = empty_state();
    let bar = navbar(&start, SupportedRelayRuntime::Polkadot);
    assert!(bar.synchronizing && !bar.busy);
    assert_eq!(bar.block, None);
    assert_eq!(bar.provider.color, "text-orange");
    assert!(matches!(add_account_pressed(), Action::ToggleLayoutAddAccountModal));
}

#[test]
fn description_search_ignores_case() {
    assert!(description_matches("Docs for the Runtime", "runtime"));
    assert!(description_matches("runtime upgrade", "RUNTIME UP"));
    assert!(description_matches("anything", ""));
    assert!(!description_matches("Audit", "runtime"));
    assert!(description_matches("GRÖSSE", "größe") == "GRÖSSE".to_lowercase().contains(&"größe".to_lowercase()));
}

#[test]
fn rows_by_filter_parents_and_search() {
    let data = cache();
    let none = BTreeSet::new();
    assert_eq!(rows(&data, &Filter::All, &none, None), vec![1, 2, 3, 4]);
    assert_eq!(rows(&data, &Filter::All, &none, Some("runtime")), vec![1, 3]);
    assert_eq!(rows(&data, &Filter::All, &BTreeSet::from([7, 9]), None), vec![1, 2, 4]);
    assert_eq!(rows(&data, &Filter::All, &BTreeSet::from([7, 9]), Some("d")), vec![1, 2, 4]);
    assert_eq!(rows(&data, &Filter::Following(vec![id_of(ALICE)]), &BTreeSet::from([8]), Some("")), vec![3]);
    assert_eq!(rows(&data, &Filter::Claimable(vec![4, 2]), &none, None), vec![2, 4]);
    assert!(rows(&data, &Filter::Following(vec![]), &none, None).is_empty());
}

#[test]
fn chips_of_parent_bounties() {
    assert_eq!(parent_chips(&cache()), vec![7, 8, 9]);
    assert!(parent_chips(&ChildBounties::new()).is_empty());
    let chosen = toggle_parent(BTreeSet::new(), 7);
    assert_eq!(chosen, BTreeSet::from([7]));
    let chosen = toggle_parent(chosen, 9);
    assert_eq!(chosen, BTreeSet::from([7, 9]));
    let chosen = toggle_parent(chosen, 7);
    assert_eq!(chosen, BTreeSet::from([9]));
    assert!(toggle_all(chosen).is_empty());
}

#[test]
fn card_of_child_bounties() {
    let start = empty_state();
    assert_eq!(child_bounties_card(&start), CardView::Loading("Initializing network. Hang tight..."));
    let mut fetching = empty_state();
    fetching.network.status = NetworkStatus::Active;
    fetching.network.fetches_counter = 1;
    assert_eq!(
        child_bounties_card(&fetching),
        CardView::Loading("Retrieving just for you, the most recent child bounties state. Hang tight...")
    );
    fetching.network.fetches_counter = 0;
    assert_eq!(child_bounties_card(&fetching), CardView::Hidden);
    assert_eq!(child_bounties_card(&scene()), CardView::Listing);
}

#[test]
fn title_of_the_card() {
    let state = scene();
    let all = ChildBountiesTitleProps { bounties_filter: BTreeSet::new() };
    assert_eq!(
        child_bounties_title(&state, &all),
        Some(TitleView { count: 3, refreshing: false, claim_button: true })
    );
    let narrowed = ChildBountiesTitleProps { bounties_filter: BTreeSet::from([8]) };
    assert_eq!(child_bounties_title(&state, &narrowed).unwrap().count, 1);
    let nothing = ChildBountiesTitleProps { bounties_filter: BTreeSet::from([9]) };
    assert_eq!(child_bounties_title(&state, &nothing), None);
    let mut everything = scene();
    everything.filter = Filter::All;
    everything.network.fetches_counter = 2;
    assert_eq!(
        child_bounties_title(&everything, &all),
        Some(TitleView { count: 4, refreshing: true, claim_button: false })
    );
    assert_eq!(child_bounties_title(&empty_state(), &all), None);
}

#[test]
fn body_of_the_card() {
    let state = scene();
    let all = ChildBountiesBodyProps { bounties_filter: BTreeSet::new() };
    assert_eq!(child_bounties_body(&state, &all, ""), Some(BodyView::Rows(vec![1, 2, 3], true)));
    assert_eq!(child_bounties_body(&state, &all, "RUNTIME"), Some(BodyView::Rows(vec![1, 3], true)));
    let narrowed = ChildBountiesBodyProps { bounties_filter: BTreeSet::from([9]) };
    assert_eq!(child_bounties_body(&state, &narrowed, ""), Some(BodyView::Rows(vec![], true)));
    let mut onboarding = scene();
    onboarding.layout.is_onboarding = true;
    assert!(is_search_offered(&onboarding) && !is_search_offered(&state));
    assert_eq!(child_bounties_body(&onboarding, &all, "audit"), Some(BodyView::Rows(vec![2], false)));
    let mut nothing = scene();
    nothing.filter = Filter::Following(vec![]);
    assert_eq!(
        child_bounties_body(&nothing, &all, ""),
        Some(BodyView::Empty("There are no open child bounties awarded to the accounts you follow."))
    );
    nothing.network.fetches_counter = 1;
    assert_eq!(
        child_bounties_body(&nothing, &all, ""),
        Some(BodyView::Searching(
            "Searching for any open child bounties awarded to the accounts you follow. Hang tight..."
        ))
    );
    assert_eq!(child_bounties_body(&empty_state(), &all, ""), None);
}

#[test]
fn stats_and_filter_pills() {
    let mut state = scene();
    let stats = child_bounties_stats(&state).expect("stats");
    assert_eq!((stats.pending.as_deref(), stats.claimable.as_str(), stats.unit), (Some("6.0"), "1.0", "DOT"));
    state.filter = Filter::Claimable(vec![1, 4]);
    let stats = child_bounties_stats(&state).unwrap();
    assert_eq!((stats.pending, stats.claimable.as_str()), (None, "9.0"));
    let pills = child_bounties_filters(&state);
    assert_eq!(
        pills,
        vec![(Filter::All, false), (Filter::Following(vec![]), false), (Filter::Claimable(vec![]), true)]
    );
    state.network.finalized_block_number = None;
    assert!(child_bounties_stats(&state).is_none());
}

#[test]
fn pills_choose_the_filter_from_the_state() {
    let state = scene();
    assert!(matches!(filter_item(&Filter::All, &state), Action::SetFilter(Filter::All)));
    let Action::SetFilter(chosen) = filter_item(&Filter::Following(vec![]), &state) else { panic!() };
    assert_eq!(chosen, Filter::Following(vec![id_of(ALICE), id_of(BOB)]));
    let Action::SetFilter(chosen) = filter_item(&Filter::Claimable(vec![9]), &state) else { panic!() };
    assert_eq!(chosen, Filter::Claimable(vec![1]));
    let Action::SetFilter(chosen) = filter_item(&Filter::Claimable(vec![9]), &empty_state()) else { panic!() };
    assert_eq!(chosen, Filter::Claimable(vec![]));
}

#[test]
fn row_of_a_child_bounty() {
    let state = scene();
    let row = child_bounty_item(&state, 1, false).expect("a row");
    assert_eq!(row.description, "Docs for the Runtime");
    assert_eq!((row.value.as_str(), row.unit), ("1.0", "DOT"));
    assert_eq!(row.reference, "# 7 / 1");
    assert_eq!(row.subsquare, "https://polkadot.subsquare.io/treasury/child-bounties/1");
    assert_eq!(row.polkassembly, "https://polkadot.polkassembly.io/child_bounty/1");
    assert_eq!(row.beneficiary, "5Grw...utQY");
    assert_eq!(row.badge, ClaimBadge::Claimable);
    assert!(matches!(row.follow, FollowView::Following));
    let row = child_bounty_item(&state, 2, false).unwrap();
    assert_eq!(row.badge, ClaimBadge::ClaimIn("Claim in 5m".to_string()));
    let row = child_bounty_item(&state, 4, false).unwrap();
    let FollowView::Follow(Action::AddAccount(address)) = row.follow else { panic!("a follow action") };
    assert_eq!(address.as_str(), CHARLIE);
    assert!(matches!(child_bounty_item(&state, 4, true).unwrap().follow, FollowView::Hidden));
}

#[test]
fn row_is_missing_without_bounty_or_block() {
    let mut state = scene();
    assert!(child_bounty_item(&state, 99, false).is_none());
    assert!(child_bounty_item_small(&state, 99).is_none());
    state.network.finalized_block_number = None;
    assert!(child_bounty_item(&state, 1, false).is_none());
    let small = child_bounty_item_small(&state, 3).expect("a line");
    assert_eq!((small.description.as_str(), small.value.as_str(), small.reference.as_str()), ("runtime upgrade", "4.0", "# 8 / 3"));
    assert!(child_bounty_item(&empty_state(), 1, false).is_none());
    assert_eq!(reference(12, 345), "# 12 / 345");
}

#[test]
fn dropdown_and_highlight() {
    let menu = Dropdown::new();
    assert!(menu.is_hidden);
    let menu = menu.toggle();
    assert!(!menu.is_hidden);
    assert!(menu.toggle().is_hidden);
    assert!(menu.close().is_hidden);
    let alice = wallet_account("alice", ALICE);
    assert!(is_highlighted(&Some(alice.clone()), &alice));
    assert!(!is_highlighted(&Some(alice.clone()), &wallet_account("bob", BOB)));
    assert!(!is_highlighted(&None, &alice));
}

#[test]
fn chips_of_accounts() {
    let state = scene();
    assert_eq!(chip_label(&id_of(ALICE), &None), "5Grw...utQY");
    assert_eq!(chip_label(&id_of(ALICE), &Some("Alice".to_string())), "Alice");
    let chip = account_chip(&state, &id_of(BOB), &None, true);
    assert_eq!(chip.label, "5FHn...94ty");
    assert!(matches!(chip.remove, Some(Action::RemoveAccountId(2))));
    assert!(account_chip(&state, &id_of(BOB), &None, false).remove.is_none());
    assert!(account_chip(&state, &id_of(CHARLIE), &None, true).remove.is_none());
    let icon = identicon(&id_of(ALICE), 24);
    assert_eq!((icon.key, icon.size, icon.address.as_str()), (id_of(ALICE).0, 24, ALICE));
}

#[test]
fn account_input_validates_and_normalizes() {
    assert_eq!(validate_account(ALICE).unwrap().as_str(), ALICE);
    assert_eq!(validate_account(ALICE_ON_POLKADOT).unwrap().as_str(), ALICE);
    assert!(validate_account("5Grw").is_none());
    let field = AccountInput::new().typed(ALICE_ON_POLKADOT.to_string());
    let (field, emitted) = field.key_pressed("a");
    assert!(emitted.is_none());
    assert_eq!(field.value, ALICE_ON_POLKADOT);
    let (field, emitted) = field.key_pressed("Enter");
    assert_eq!(emitted.unwrap().as_str(), ALICE);
    assert_eq!((field.value.as_str(), field.err.as_str()), ("", ""));
    let (field, emitted) = field.typed("nope".to_string()).submit();
    assert!(emitted.is_none());
    assert_eq!((field.value.as_str(), field.err.as_str()), ("nope", "Invalid SS58 Account"));
    let (field, emitted) = field.typed(BOB.to_string()).submit();
    assert_eq!(emitted.unwrap().as_str(), BOB);
    assert_eq!(field.err, "");
}

#[test]
fn filter_input_holds_the_search() {
    let field = FilterInput::new();
    assert!(!field.is_clear_offered());
    let field = field.typed("docs".to_string());
    assert!(field.is_clear_offered());
    assert_eq!(field.value, "docs");
    assert_eq!(field.cleared().value, "");
}

#[test]
fn onboarding_steps_go_round() {
    let steps = OnboardingSteps::new();
    assert_eq!(steps.step(), 0);
    assert!(steps.is_back_disabled());
    assert_eq!(steps.timer(), None);
    assert_eq!(steps.back().step(), 2);
    let (steps, action) = steps.next();
    assert_eq!((steps.step(), action.is_none()), (1, true));
    assert_eq!(steps.back().step(), 0);
    let (steps, action) = steps.next();
    assert_eq!((steps.step(), action.is_none()), (2, true));
    assert_eq!(steps.timer(), Some(5_000));
    assert!(!steps.is_back_disabled());
    let (steps, action) = steps.next();
    assert_eq!(steps.step(), 2);
    assert!(matches!(action, Some(Action::FinishOnboarding)));
    assert!(matches!(timer_fired(), Action::FinishOnboarding));
    assert!(steps.is_dot_filled(0) && steps.is_dot_filled(2));
    assert!(!OnboardingSteps::new().is_dot_filled(1));
}

#[test]
fn onboarding_next_waits_for_accounts_and_network() {
    let first = OnboardingSteps::new();
    let (second, _) = first.next();
    let mut nobody = empty_state();
    nobody.network.status = NetworkStatus::Active;
    assert!(!first.is_next_disabled(&nobody));
    assert!(second.is_next_disabled(&nobody));
    let mut state = scene();
    state.network.fetches_counter = 0;
    assert!(!second.is_next_disabled(&state));
    state.network.fetches_counter = 1;
    assert!(second.is_next_disabled(&state) && first.is_next_disabled(&state));
    state.network.fetches_counter = 0;
    state.network.status = NetworkStatus::Initializing;
    assert!(first.is_next_disabled(&state));
}

#[test]
fn onboarding_texts() {
    let first = OnboardingSteps::new();
    let (second, _) = first.next();
    let (third, _) = second.next();
    let state = scene();
    assert_eq!(first.title(), "Follow up on your Child Bounties.");
    assert_eq!(second.title(), "Is your Child Bounty not live yet?");
    assert_eq!(third.title(), "You're all set!");
    assert_eq!(second.subtitle(&state), "Expecting an award soon? Enter the beneficiary address below.");
    assert_eq!(third.subtitle(&state), "Following 2 accounts. Enjoy and go claim your Child Bounties!");
    assert_eq!(following_message(1), "Following 1 account. Enjoy and go claim your Child Bounties!");
    assert_eq!(following_message(0), "Following 0 account. Enjoy and go claim your Child Bounties!");
    let address = Address::parse(ALICE).unwrap();
    assert!(matches!(address_entered(address.clone()), Action::AddAccount(a) if a == address));
}

#[test]
fn claim_modal_opens_on_a_new_claim() {
    let modal = ClaimModal::new();
    assert_eq!(modal.visibility_class(), "hidden");
    let claim = Some(ClaimState::new(vec![(7, 1)]));
    let (modal, request) = modal.on_claim(&claim, &ExtensionState::new(None));
    assert!(modal.is_visible);
    assert_eq!(modal.visibility_class(), "flex");
    assert!(matches!(request, ModalRequest::Nothing));
    let remembered = ExtensionState::new(Some(wallet_account("alice", ALICE)));
    let (_, request) = ClaimModal::new().on_claim(&claim, &remembered);
    assert!(matches!(request, ModalRequest::Dispatch(Action::ConnectExtension(ref s)) if s == "polkadot-js"));
}

#[test]
fn claim_modal_asks_the_wallet_to_sign() {
    let mut claim = ClaimState::new(vec![(7, 1)]);
    claim.status = ClaimStatus::Signing("payload".to_string());
    let mut extension = ExtensionState::new(Some(wallet_account("alice", ALICE)));
    extension.status = ExtensionStatus::Ready;
    let mut modal = ClaimModal::new();
    modal.err = "before".to_string();
    let (modal, request) = modal.on_claim(&Some(claim.clone()), &extension);
    assert_eq!(modal.err, "");
    let ModalRequest::Sign { payload, source, address } = request else { panic!("a request to sign") };
    assert_eq!((payload.as_str(), source.as_str(), address.as_str()), ("payload", "polkadot-js", ALICE));
    extension.status = ExtensionStatus::Connected;
    let mut modal = ClaimModal::new();
    modal.err = "before".to_string();
    let (modal, request) = modal.on_claim(&Some(claim), &extension);
    assert!(matches!(request, ModalRequest::Nothing));
    assert_eq!(modal.err, "before");
}

#[test]
fn claim_modal_closes_on_completion_and_cancel() {
    let mut claim = ClaimState::new(vec![(7, 1)]);
    claim.status = ClaimStatus::Completed;
    let mut modal = ClaimModal::new();
    modal.is_visible = true;
    let (modal, request) = modal.on_claim(&Some(claim.clone()), &ExtensionState::new(None));
    assert!(!modal.is_visible);
    assert!(matches!(request, ModalRequest::Dispatch(Action::ResetClaim)));
    claim.status = ClaimStatus::Preparing;
    let mut open = ClaimModal::new();
    open.is_visible = true;
    let (open, request) = open.on_claim(&Some(claim), &ExtensionState::new(None));
    assert!(open.is_visible && matches!(request, ModalRequest::Nothing));
    let (open, request) = open.on_claim(&None, &ExtensionState::new(None));
    assert!(open.is_visible && matches!(request, ModalRequest::Nothing));
    let (closed, action) = open.cancel();
    assert!(!closed.is_visible);
    assert!(matches!(action, Action::ResetClaim));
}

#[test]
fn claim_modal_connects_the_wallet() {
    let modal = ClaimModal::new();
    let mut extension = ExtensionState::new(Some(wallet_account("alice", ALICE)));
    extension.status = ExtensionStatus::Connecting("talisman".to_string());
    assert!(matches!(modal.on_extension(&extension), ModalRequest::GetAccounts(ref s) if s == "talisman"));
    let (modal, action) = modal.on_accounts(Ok(vec![wallet_account("alice", ALICE)]));
    assert!(matches!(action, Some(Action::ChangeExtensionStatus(ExtensionStatus::Connected))));
    assert_eq!(modal.extension_accounts.len(), 1);
    extension.status = ExtensionStatus::Connected;
    assert!(matches!(
        modal.on_extension(&extension),
        ModalRequest::Dispatch(Action::ChangeExtensionStatus(ExtensionStatus::Ready))
    ));
    extension.signer = Some(wallet_account("bob", BOB));
    assert!(matches!(modal.on_extension(&extension), ModalRequest::Nothing));
    extension.signer = None;
    assert!(matches!(modal.on_extension(&extension), ModalRequest::Nothing));
    extension.status = ExtensionStatus::Ready;
    assert!(matches!(modal.on_extension(&extension), ModalRequest::Nothing));
}

#[test]
fn claim_modal_shows_failures_of_the_wallet() {
    let (modal, action) = ClaimModal::new().on_accounts(Ok(vec![]));
    assert!(action.is_none());
    assert!(modal.err.starts_with("Please make sure"));
    let (modal, action) = modal.on_accounts(Err("no extension".to_string()));
    assert!(action.is_none());
    assert_eq!(modal.err, "no extension");
    let (modal, action) = modal.on_signature(Err("rejected".to_string()));
    assert_eq!(modal.err, "rejected");
    assert!(matches!(action, Action::ErrorClaim(ref m) if m == "rejected"));
    let (modal, action) = modal.on_signature(Ok(vec![9, 9]));
    assert_eq!(modal.err, "rejected");
    assert!(matches!(action, Action::SubmitWithSignature(ref s) if s == &vec![9, 9]));
}

#[test]
fn claim_modal_title_and_review() {
    let mut extension = ExtensionState::new(None);
    assert_eq!(claim_modal_title(&extension), "Connect wallet");
    let claim = Some(ClaimState::new(vec![(7, 1), (8, 3)]));
    assert!(review_ids(&claim, &extension).is_empty());
    extension.status = ExtensionStatus::Connected;
    assert_eq!(claim_modal_title(&extension), "Claim child bounties");
    assert_eq!(review_ids(&claim, &extension), vec![1, 3]);
    assert!(review_ids(&None, &extension).is_empty());
}

#[test]
fn sign_button_follows_signer_and_claim() {
    let mut extension = ExtensionState::new(None);
    let mut claim = ClaimState::new(vec![(7, 1)]);
    assert!(sign_button(&None, &extension).is_none());
    let view = sign_button(&Some(claim.clone()), &extension).unwrap();
    assert_eq!((view.disabled, view.busy, view.label.as_str()), (true, false, "Sign and Submit"));
    extension.status = ExtensionStatus::Ready;
    let view = sign_button(&Some(claim.clone()), &extension).unwrap();
    assert_eq!((view.disabled, view.busy), (false, false));
    claim.status = ClaimStatus::Signing("p".to_string());
    let view = sign_button(&Some(claim.clone()), &extension).unwrap();
    assert_eq!((view.disabled, view.busy, view.label.as_str()), (true, true, "Signing"));
    claim.status = ClaimStatus::Submitting(vec![]);
    assert_eq!(sign_button(&Some(claim.clone()), &extension).unwrap().label, "Submitting");
    claim.status = ClaimStatus::Error("e".to_string());
    assert!(!sign_button(&Some(claim), &extension).unwrap().disabled);
    assert!(matches!(sign_button_pressed(), Action::PreparePayload));
}

#[test]
fn wallet_buttons_and_choices() {
    let mut wallets = extensions_supported();
    wallets[1].installed = true;
    let missing = wallet_button(&wallets[0]);
    assert_eq!((missing.name.as_str(), missing.label.as_str(), missing.disabled, missing.caption), ("polkadot-js", "Polkadot JS", true, Some("Not installed")));
    let installed = wallet_button(&wallets[1]);
    assert_eq!((installed.disabled, installed.caption), (false, None));
    assert!(matches!(wallet_chosen("talisman".to_string()), Action::ConnectExtension(ref s) if s == "talisman"));
    let alice = wallet_account("alice", ALICE);
    assert!(matches!(signer_chosen(alice.clone()), Action::ChangeSigner(a) if a == alice));
}

#[test]
fn add_account_modal() {
    let mut state = empty_state();
    assert!(!add_account_modal_visible(&state.layout));
    state.layout.is_add_account_modal_visible = true;
    assert!(add_account_modal_visible(&state.layout));
    let actions = add_account_entered(Address::parse(ALICE).unwrap());
    assert_eq!(actions.len(), 2);
    assert!(matches!(actions[0], Action::AddAccount(_)));
    assert!(matches!(actions[1], Action::ToggleLayoutAddAccountModal));
    assert!(matches!(add_account_cancelled(), Action::ToggleLayoutAddAccountModal));
}
