use vstd::prelude::*;
use crate::runtimes::support::SupportedRelayRuntime;
use crate::types::accounts::AccountId;
use crate::types::child_bounties::ChildBountiesIds;
use crate::types::network::SubscriptionId;
use crate::types::worker::{Input, Output, SignerAddress, UseLightClient};

verus! {

/// Where the network worker stands.
#[derive(Clone, Debug, PartialEq, Eq)]
pub enum WorkerState {
    /// No session: the worker waits to be started.
    Idle,
    /// The clients of a session are being connected.
    Connecting(SubscriptionId, SupportedRelayRuntime, UseLightClient),
    /// A session is running.
    Running(SubscriptionId, SupportedRelayRuntime),
    /// The worker has ended.
    Finished,
}

/// Work that the worker hands to a task of its own, so that it never
/// waits for the network itself.
#[derive(Clone, Debug, PartialEq, Eq)]
pub enum Task {
    FetchChildBounties,
    FetchAccountBalance(AccountId),
    FetchAccountIdentity(AccountId),
    CreatePayloadTx(ChildBountiesIds, SignerAddress),
    SignAndSubmitTx(ChildBountiesIds, SignerAddress, Vec<u8>),
}

/// What can happen to the worker.
#[derive(Clone, Debug, PartialEq, Eq)]
pub enum WorkerEvent {
    /// The application asked for something.
    Input(Input),
    /// The application is gone: nothing more will be asked.
    InputClosed,
    /// Both clients are connected.
    Connected,
    /// A client could not be connected.
    ConnectFailed,
    /// The relay chain finalized a block.
    Block(u32),
    /// A task came back with what it was asked for.
    Fetched(Output),
    /// A task failed; this is logged and nothing is reported.
    TaskFailed,
    /// A report could not be delivered: the application is gone.
    SendFailed,
}

/// What the worker's loop is to do next.
#[derive(Clone, Debug, PartialEq, Eq)]
pub enum WorkerCommand {
    /// Connect the relay chain's client and the people chain's.
    Connect(SupportedRelayRuntime, UseLightClient),
    /// Subscribe to the relay chain's finalized blocks.
    SubscribeBlocks,
    /// Report to the application.
    Emit(Output),
    /// Start a task against the given chain.
    Run(SupportedRelayRuntime, Task),
    /// End the loop.
    Stop,
}

/// The task that an input stands for, if it stands for one.
pub open spec fn task_of(input: Input) -> Option<Task> {
    match input {
        Input::FetchChildBounties => Some(Task::FetchChildBounties),
        Input::FetchAccountBalance(account) => Some(Task::FetchAccountBalance(account)),
        Input::FetchAccountIdentity(account) => Some(Task::FetchAccountIdentity(account)),
        Input::CreatePayloadTx(ids, signer) => Some(Task::CreatePayloadTx(ids, signer)),
        Input::SignAndSubmitTx(ids, signer, signature) => Some(
            Task::SignAndSubmitTx(ids, signer, signature),
        ),
        Input::Start(_, _, _) => None,
        Input::Finish => None,
    }
}

/// The worker's next state and what its loop is to do, for each state
/// and event.
///
/// An idle worker answers only to `Start`, by connecting. Once connected
/// it subscribes to finalized blocks and reports the session as active;
/// if it cannot connect it reports the session as failed and is idle
/// again. A running worker turns every request into a task, every block
/// and every result of a task into a report tagged for its session, and
/// ends on `Finish` or when the application is gone.
pub open spec fn worker_next(state: WorkerState, event: WorkerEvent) -> (
    WorkerState,
    Seq<WorkerCommand>,
) {
    match state {
        WorkerState::Idle => match event {
            WorkerEvent::Input(Input::Start(id, runtime, light)) => (
                WorkerState::Connecting(id, runtime, light),
                seq![WorkerCommand::Connect(runtime, light)],
            ),
            WorkerEvent::InputClosed => (WorkerState::Finished, seq![WorkerCommand::Stop]),
            _ => (state, Seq::empty()),
        },
        WorkerState::Connecting(id, runtime, light) => match event {
            WorkerEvent::Connected => (
                WorkerState::Running(id, runtime),
                seq![WorkerCommand::SubscribeBlocks, WorkerCommand::Emit(Output::Active(id))],
            ),
            WorkerEvent::ConnectFailed => (
                WorkerState::Idle,
                seq![WorkerCommand::Emit(Output::Failed(id))],
            ),
            WorkerEvent::InputClosed => (WorkerState::Finished, seq![WorkerCommand::Stop]),
            WorkerEvent::SendFailed => (WorkerState::Finished, seq![WorkerCommand::Stop]),
            _ => (state, Seq::empty()),
        },
        WorkerState::Running(id, runtime) => match event {
            WorkerEvent::Input(Input::Finish) => (WorkerState::Finished, seq![WorkerCommand::Stop]),
            WorkerEvent::Input(input) => match task_of(input) {
                Some(task) => (state, seq![WorkerCommand::Run(runtime, task)]),
                None => (state, Seq::empty()),
            },
            WorkerEvent::InputClosed => (WorkerState::Finished, seq![WorkerCommand::Stop]),
            WorkerEvent::Block(number) => (
                state,
                seq![WorkerCommand::Emit(Output::BlockNumber(id, number))],
            ),
            WorkerEvent::Fetched(output) => (state, seq![WorkerCommand::Emit(output)]),
            WorkerEvent::TaskFailed => (state, Seq::empty()),
            WorkerEvent::SendFailed => (WorkerState::Finished, seq![WorkerCommand::Stop]),
            _ => (state, Seq::empty()),
        },
        WorkerState::Finished => (state, Seq::empty()),
    }
}

fn one(command: WorkerCommand) -> (r: Vec<WorkerCommand>)
    ensures
        r@ == seq![command],
{
    let mut out: Vec<WorkerCommand> = Vec::new();
    out.push(command);
    out
}

fn task_for(input: Input) -> (r: Option<Task>)
    ensures
        r == task_of(input),
{
    match input {
        Input::FetchChildBounties => Some(Task::FetchChildBounties),
        Input::FetchAccountBalance(account) => Some(Task::FetchAccountBalance(account)),
        Input::FetchAccountIdentity(account) => Some(Task::FetchAccountIdentity(account)),
        Input::CreatePayloadTx(ids, signer) => Some(Task::CreatePayloadTx(ids, signer)),
        Input::SignAndSubmitTx(ids, signer, signature) => Some(
            Task::SignAndSubmitTx(ids, signer, signature),
        ),
        Input::Start(_, _, _) => None,
        Input::Finish => None,
    }
}

/// One step of the worker.
pub fn worker_step(state: WorkerState, event: WorkerEvent) -> (r: (WorkerState, Vec<WorkerCommand>))
    ensures
        (r.0, r.1@) == worker_next(state, event),
{
    match state {
        WorkerState::Idle => match event {
            WorkerEvent::Input(Input::Start(id, runtime, light)) => (
                WorkerState::Connecting(id, runtime, light),
                one(WorkerCommand::Connect(runtime, light)),
            ),
            WorkerEvent::InputClosed => (WorkerState::Finished, one(WorkerCommand::Stop)),
            _ => (WorkerState::Idle, Vec::new()),
        },
        WorkerState::Connecting(id, runtime, light) => match event {
            WorkerEvent::Connected => {
                let mut commands = one(WorkerCommand::SubscribeBlocks);
                commands.push(WorkerCommand::Emit(Output::Active(id)));
                (WorkerState::Running(id, runtime), commands)
            },
            WorkerEvent::ConnectFailed => (
                WorkerState::Idle,
                one(WorkerCommand::Emit(Output::Failed(id))),
            ),
            WorkerEvent::InputClosed => (WorkerState::Finished, one(WorkerCommand::Stop)),
            WorkerEvent::SendFailed => (WorkerState::Finished, one(WorkerCommand::Stop)),
            _ => (WorkerState::Connecting(id, runtime, light), Vec::new()),
        },
        WorkerState::Running(id, runtime) => match event {
            WorkerEvent::Input(Input::Finish) => (WorkerState::Finished, one(WorkerCommand::Stop)),
            WorkerEvent::Input(input) => match task_for(input) {
                Some(task) => (
                    WorkerState::Running(id, runtime),
                    one(WorkerCommand::Run(runtime, task)),
                ),
                None => (WorkerState::Running(id, runtime), Vec::new()),
            },
            WorkerEvent::InputClosed => (WorkerState::Finished, one(WorkerCommand::Stop)),
            WorkerEvent::Block(number) => (
                WorkerState::Running(id, runtime),
                one(WorkerCommand::Emit(Output::BlockNumber(id, number))),
            ),
            WorkerEvent::Fetched(output) => (
                WorkerState::Running(id, runtime),
                one(WorkerCommand::Emit(output)),
            ),
            WorkerEvent::TaskFailed => (WorkerState::Running(id, runtime), Vec::new()),
            WorkerEvent::SendFailed => (WorkerState::Finished, one(WorkerCommand::Stop)),
            _ => (WorkerState::Running(id, runtime), Vec::new()),
        },
        WorkerState::Finished => (WorkerState::Finished, Vec::new()),
    }
}

/// Every report that the worker makes of a block carries the id of the
/// session it runs, so that an application which has moved on to another
/// session can tell it is stale.
pub proof fn block_reports_carry_the_session(state: WorkerState, number: u32)
    ensures
        match state {
            WorkerState::Running(id, _) => worker_next(state, WorkerEvent::Block(number)).1
                == seq![WorkerCommand::Emit(Output::BlockNumber(id, number))],
            _ => worker_next(state, WorkerEvent::Block(number)).1.len() == 0,
        },
{
}

/// A finished worker stays finished and does nothing more.
pub proof fn finished_is_final(event: WorkerEvent)
    ensures
        worker_next(WorkerState::Finished, event) == (
            WorkerState::Finished,
            Seq::<WorkerCommand>::empty(),
        ),
{
}

} // verus!
