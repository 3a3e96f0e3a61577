use claimeer::runtimes::support::SupportedRelayRuntime;
use claimeer::session::{
    copy_bytes, copy_ids, find_account_id, header_class, on_accounts_changed, on_claim_changed,
    on_network_status, switch_network, toggle_provider,
};
use claimeer::state::store::LocalStore;
use claimeer::state::{Action, State};
use claimeer::types::accounts::{AccountId, Address};
use claimeer::types::claims::{ClaimState, ClaimStatus};
use claimeer::types::extensions::{ExtensionAccount, ExtensionState, ExtensionStatus};
use claimeer::types::network::NetworkStatus;
use claimeer::types::worker::{Input, Output};
use claimeer::workers::network_api::{worker_step, Task, WorkerCommand, WorkerEvent, WorkerState};

const ALICE: &str = "5GrwvaEF5zXb26Fz9rcQpDWS57CtERHpNehXCPcNoHGKutQY";
const BOB: &str = "5FHneW46xGXgs5mUiveU4sbTyGBzmstUspZC92UhjJM694ty";

fn id_of(address: &str) -> AccountId {
    AccountId::from_ss58(address).expect("a valid address")
}

fn state_following(addresses: &[&str]) -> State {
    let mut store = LocalStore::empty();
    let mut state = State::with_subscription_id(SupportedRelayRuntime::Kusama, true, &store, 11);
    for text in addresses {
        let next = state.reduce_with(Action::AddAccount(Address::parse(text).unwrap()), store, 0);
        state = next.0;
        store = next.1;
    }
    state
}

fn ready(address: &str) -> ExtensionState {
    ExtensionState {
        signer: Some(ExtensionAccount {
            name: "a".to_string(),
            source: "polkadot-js".to_string(),
            account_type: "sr25519".to_string(),
            address: address.to_string(),
        }),
        status: ExtensionStatus::Ready,
    }
}

#[test]
fn initializing_network_starts_the_worker() {
    let state = state_following(&[ALICE]);
    let (action, inputs) = on_network_status(&state);
    assert!(action.is_none());
    assert_eq!(inputs, vec![Input::Start(11, SupportedRelayRuntime::Kusama, true)]);
}

#[test]
fn active_network_fetches_bounties_and_balances() {
    let mut state = state_following(&[ALICE, BOB]);
    state.network.status = NetworkStatus::Active;
    let (action, inputs) = on_network_status(&state);
    assert!(matches!(action, Some(Action::IncreaseFetch)));
    assert_eq!(
        inputs,
        vec![
            Input::FetchChildBounties,
            Input::FetchAccountBalance(id_of(ALICE)),
            Input::FetchAccountBalance(id_of(BOB)),
        ]
    );
}

#[test]
fn inactive_network_asks_nothing() {
    let mut state = state_following(&[ALICE]);
    state.network.status = NetworkStatus::Inactive;
    let (action, inputs) = on_network_status(&state);
    assert!(action.is_none());
    assert!(inputs.is_empty());
}

#[test]
fn changed_accounts_ask_for_balances_and_onboarding() {
    let (action, inputs) = on_accounts_changed(&state_following(&[]));
    assert!(matches!(action, Some(Action::StartOnboarding)));
    assert!(inputs.is_empty());
    let (action, inputs) = on_accounts_changed(&state_following(&[BOB]));
    assert!(action.is_none());
    assert_eq!(inputs, vec![Input::FetchAccountBalance(id_of(BOB))]);
}

#[test]
fn claim_being_prepared_asks_for_the_payload() {
    let mut claim = ClaimState::new(vec![(7, 42), (7, 43)]);
    claim.status = ClaimStatus::Preparing;
    assert_eq!(
        on_claim_changed(&Some(claim), &ready(ALICE)),
        Some(Input::CreatePayloadTx(vec![(7, 42), (7, 43)], ALICE.to_string()))
    );
}

#[test]
fn signed_claim_is_submitted() {
    let mut claim = ClaimState::new(vec![(7, 42)]);
    claim.status = ClaimStatus::Submitting(vec![9, 9]);
    assert_eq!(
        on_claim_changed(&Some(claim), &ready(BOB)),
        Some(Input::SignAndSubmitTx(vec![(7, 42)], BOB.to_string(), vec![9, 9]))
    );
}

#[test]
fn claim_asks_nothing_without_a_ready_signer_or_in_other_stages() {
    let mut claim = ClaimState::new(vec![(7, 42)]);
    assert_eq!(on_claim_changed(&Some(claim.clone()), &ready(ALICE)), None);
    claim.status = ClaimStatus::Preparing;
    let mut connected = ready(ALICE);
    connected.status = ExtensionStatus::Connected;
    assert_eq!(on_claim_changed(&Some(claim.clone()), &connected), None);
    let mut nobody = ready(ALICE);
    nobody.signer = None;
    assert_eq!(on_claim_changed(&Some(claim.clone()), &nobody), None);
    claim.status = ClaimStatus::Signing("p".to_string());
    assert_eq!(on_claim_changed(&Some(claim), &ready(ALICE)), None);
    assert_eq!(on_claim_changed(&None, &ready(ALICE)), None);
}

#[test]
fn switching_chain_or_provider_ends_the_session_first() {
    let state = state_following(&[]);
    let (input, action) = switch_network(&state, SupportedRelayRuntime::Polkadot);
    assert_eq!(input, Input::Finish);
    assert!(matches!(action, Action::ChangeNetwork(SupportedRelayRuntime::Polkadot, true)));
    let (input, action) = toggle_provider(&state);
    assert_eq!(input, Input::Finish);
    assert!(matches!(action, Action::ChangeNetwork(SupportedRelayRuntime::Kusama, false)));
}

#[test]
fn small_helpers() {
    let state = state_following(&[ALICE, BOB]);
    assert_eq!(find_account_id(&state.accounts, &id_of(BOB)), Some(2));
    assert_eq!(find_account_id(&state_following(&[]).accounts, &id_of(BOB)), None);
    assert_eq!(copy_ids(&vec![(1, 2), (3, 4)]), vec![(1, 2), (3, 4)]);
    assert_eq!(copy_bytes(&vec![1, 2, 3]), vec![1, 2, 3]);
    assert_eq!(header_class(&state), "flex");
    let mut done = state_following(&[ALICE]);
    done.layout.is_onboarding = false;
    assert_eq!(header_class(&done), "hidden sm:flex");
}

#[test]
fn idle_worker_answers_to_start_only() {
    let (state, commands) = worker_step(WorkerState::Idle, WorkerEvent::Input(Input::FetchChildBounties));
    assert_eq!(state, WorkerState::Idle);
    assert!(commands.is_empty());
    let (state, commands) = worker_step(state, WorkerEvent::Input(Input::Finish));
    assert_eq!(state, WorkerState::Idle);
    assert!(commands.is_empty());
    let (state, commands) =
        worker_step(state, WorkerEvent::Input(Input::Start(3, SupportedRelayRuntime::Kusama, true)));
    assert_eq!(state, WorkerState::Connecting(3, SupportedRelayRuntime::Kusama, true));
    assert_eq!(commands, vec![WorkerCommand::Connect(SupportedRelayRuntime::Kusama, true)]);
}

#[test]
fn connected_worker_subscribes_and_reports_active() {
    let connecting = WorkerState::Connecting(3, SupportedRelayRuntime::Kusama, false);
    let (state, commands) = worker_step(connecting, WorkerEvent::Connected);
    assert_eq!(state, WorkerState::Running(3, SupportedRelayRuntime::Kusama));
    assert_eq!(
        commands,
        vec![WorkerCommand::SubscribeBlocks, WorkerCommand::Emit(Output::Active(3))]
    );
}

#[test]
fn worker_that_cannot_connect_reports_failure() {
    let connecting = WorkerState::Connecting(3, SupportedRelayRuntime::Kusama, false);
    let (state, commands) = worker_step(connecting, WorkerEvent::ConnectFailed);
    assert_eq!(state, WorkerState::Idle);
    assert_eq!(commands, vec![WorkerCommand::Emit(Output::Failed(3))]);
}

#[test]
fn running_worker_turns_requests_into_tasks() {
    let running = || WorkerState::Running(3, SupportedRelayRuntime::Polkadot);
    let alice = id_of(ALICE);
    let cases = vec![
        (Input::FetchChildBounties, Task::FetchChildBounties),
        (Input::FetchAccountBalance(alice), Task::FetchAccountBalance(alice)),
        (Input::FetchAccountIdentity(alice), Task::FetchAccountIdentity(alice)),
        (
            Input::CreatePayloadTx(vec![(7, 42)], ALICE.to_string()),
            Task::CreatePayloadTx(vec![(7, 42)], ALICE.to_string()),
        ),
        (
            Input::SignAndSubmitTx(vec![(7, 42)], ALICE.to_string(), vec![1]),
            Task::SignAndSubmitTx(vec![(7, 42)], ALICE.to_string(), vec![1]),
        ),
    ];
    for (input, task) in cases {
        let (state, commands) = worker_step(running(), WorkerEvent::Input(input));
        assert_eq!(state, running());
        assert_eq!(commands, vec![WorkerCommand::Run(SupportedRelayRuntime::Polkadot, task)]);
    }
    let (state, commands) = worker_step(
        running(),
        WorkerEvent::Input(Input::Start(4, SupportedRelayRuntime::Kusama, true)),
    );
    assert_eq!(state, running());
    assert!(commands.is_empty());
}

#[test]
fn running_worker_reports_blocks_and_results_under_its_session() {
    let running = || WorkerState::Running(3, SupportedRelayRuntime::Polkadot);
    let (_, commands) = worker_step(running(), WorkerEvent::Block(100));
    assert_eq!(commands, vec![WorkerCommand::Emit(Output::BlockNumber(3, 100))]);
    let (_, commands) = worker_step(running(), WorkerEvent::Fetched(Output::TxPayload("p".into())));
    assert_eq!(commands, vec![WorkerCommand::Emit(Output::TxPayload("p".into()))]);
    let (state, commands) = worker_step(running(), WorkerEvent::TaskFailed);
    assert_eq!(state, running());
    assert!(commands.is_empty());
}

#[test]
fn worker_ends_on_finish_or_when_the_application_is_gone() {
    let running = || WorkerState::Running(3, SupportedRelayRuntime::Polkadot);
    for event in [WorkerEvent::Input(Input::Finish), WorkerEvent::InputClosed, WorkerEvent::SendFailed] {
        let (state, commands) = worker_step(running(), event);
        assert_eq!(state, WorkerState::Finished);
        assert_eq!(commands, vec![WorkerCommand::Stop]);
    }
    let (state, commands) = worker_step(WorkerState::Finished, WorkerEvent::Block(1));
    assert_eq!(state, WorkerState::Finished);
    assert!(commands.is_empty());
    let (state, _) = worker_step(WorkerState::Idle, WorkerEvent::InputClosed);
    assert_eq!(state, WorkerState::Finished);
}
