//! The launch as a state machine: the host reports what happened outside,
//! and is told what to do next.

use vstd::prelude::*;
use crate::resources::{resolve_spec, ResourceEntryView};
use crate::sidecar::{
    answered, conclude, conclude_spec, launched, plan_spec, request_for, LaunchError,
    LaunchErrorView, SidecarHandle, SidecarSpec, SidecarSpecView, SpawnRequest, SpawnRequestView,
};

verus! {

/// Where the launch stands.
#[derive(Debug, PartialEq, Eq)]
pub enum LaunchState {
    /// Nothing has happened yet.
    Idle,
    /// The request to spawn is with the operating system.
    Spawning,
    /// The sidecar was started.
    Running(SidecarHandle),
    /// The launch failed and the application must stop.
    Aborted(LaunchError),
}

/// A [`LaunchState`] by the views of what it holds.
pub enum LaunchStateView {
    Idle,
    Spawning,
    Running(u32),
    Aborted(LaunchErrorView),
}

impl View for LaunchState {
    type V = LaunchStateView;

    open spec fn view(&self) -> LaunchStateView {
        match self {
            LaunchState::Idle => LaunchStateView::Idle,
            LaunchState::Spawning => LaunchStateView::Spawning,
            LaunchState::Running(handle) => LaunchStateView::Running(handle@),
            LaunchState::Aborted(error) => LaunchStateView::Aborted(error@),
        }
    }
}

/// What the host reports to the supervisor.
#[derive(Debug, PartialEq, Eq)]
pub enum LaunchEvent {
    /// The resource table was asked for the binary: the path of the
    /// executable, or none.
    Resolved(Option<String>),
    /// The operating system answered the request to spawn: the identifier
    /// of the new process, or its reason for refusing.
    SpawnReturned(Result<u32, String>),
    /// The sidecar process ended.
    ChildExited,
}

/// A [`LaunchEvent`] by the views of what it holds.
pub enum LaunchEventView {
    Resolved(Option<Seq<char>>),
    SpawnReturned(Result<u32, Seq<char>>),
    ChildExited,
}

impl View for LaunchEvent {
    type V = LaunchEventView;

    open spec fn view(&self) -> LaunchEventView {
        match self {
            LaunchEvent::Resolved(Some(program)) => LaunchEventView::Resolved(Some(program@)),
            LaunchEvent::Resolved(None) => LaunchEventView::Resolved(None),
            LaunchEvent::SpawnReturned(outcome) => LaunchEventView::SpawnReturned(
                answered(*outcome),
            ),
            LaunchEvent::ChildExited => LaunchEventView::ChildExited,
        }
    }
}

/// What the supervisor asks of the host.
#[derive(Debug, Clone, PartialEq, Eq)]
pub enum LaunchAction {
    /// Hand this request to the operating system, away from the interface's
    /// event loop, and report its answer.
    Spawn(SpawnRequest),
    /// Stop the application with the diagnostic of this error.
    Abort(LaunchError),
    /// Nothing to do.
    Nothing,
}

/// A [`LaunchAction`] by the views of what it holds.
pub enum LaunchActionView {
    Spawn(SpawnRequestView),
    Abort(LaunchErrorView),
    Nothing,
}

impl View for LaunchAction {
    type V = LaunchActionView;

    open spec fn view(&self) -> LaunchActionView {
        match self {
            LaunchAction::Spawn(request) => LaunchActionView::Spawn(request@),
            LaunchAction::Abort(error) => LaunchActionView::Abort(error@),
            LaunchAction::Nothing => LaunchActionView::Nothing,
        }
    }
}

/// The state that follows `state` on `event`, and what the host is to do.
///
/// The binary resolves once, while idle: to a request to spawn, or to the
/// end of the launch with `NotFound`. The answer to that request is taken
/// once, while spawning: the sidecar runs, or the launch ends with
/// `SpawnFailed`. Every other event leaves the state as it is and asks
/// for nothing: a second resolution, an answer nobody waits for, the end of
/// the sidecar process.
pub open spec fn step_spec(
    spec: SidecarSpecView,
    state: LaunchStateView,
    event: LaunchEventView,
) -> (LaunchStateView, LaunchActionView) {
    match (state, event) {
        (LaunchStateView::Idle, LaunchEventView::Resolved(Some(program))) => (
            LaunchStateView::Spawning,
            LaunchActionView::Spawn(request_for(spec, program)),
        ),
        (LaunchStateView::Idle, LaunchEventView::Resolved(None)) => (
            LaunchStateView::Aborted(LaunchErrorView::NotFound(spec.binary)),
            LaunchActionView::Abort(LaunchErrorView::NotFound(spec.binary)),
        ),
        (LaunchStateView::Spawning, LaunchEventView::SpawnReturned(outcome)) => match conclude_spec(
            outcome,
        ) {
            Ok(pid) => (LaunchStateView::Running(pid), LaunchActionView::Nothing),
            Err(error) => (LaunchStateView::Aborted(error), LaunchActionView::Abort(error)),
        },
        _ => (state, LaunchActionView::Nothing),
    }
}

/// The result of the launch once it is over: the process where the sidecar
/// runs, the error where the launch failed. There is none before that.
pub open spec fn settled_spec(state: LaunchStateView) -> Option<Result<u32, LaunchErrorView>> {
    match state {
        LaunchStateView::Running(pid) => Some(Ok(pid)),
        LaunchStateView::Aborted(error) => Some(Err(error)),
        _ => None,
    }
}

/// Where the launch stands after `events`, taken in from `state` one by one,
/// and what the host was asked to do on each of them.
pub open spec fn run_spec(
    spec: SidecarSpecView,
    state: LaunchStateView,
    events: Seq<LaunchEventView>,
) -> (LaunchStateView, Seq<LaunchActionView>)
    decreases events.len(),
{
    if events.len() == 0 {
        (state, Seq::empty())
    } else {
        let (next, action) = step_spec(spec, state, events.first());
        let (last, actions) = run_spec(spec, next, events.drop_first());
        (last, seq![action] + actions)
    }
}

/// Each event is answered by one action.
pub proof fn lemma_one_action_per_event(
    spec: SidecarSpecView,
    state: LaunchStateView,
    events: Seq<LaunchEventView>,
)
    ensures
        run_spec(spec, state, events).1.len() == events.len(),
    decreases events.len(),
{
    if events.len() > 0 {
        let (next, _) = step_spec(spec, state, events.first());
        lemma_one_action_per_event(spec, next, events.drop_first());
    }
}

/// Once the sidecar runs or the launch has failed, nothing changes that:
/// whatever is reported afterwards, the state stays and the host is asked
/// for nothing. There is no retry after a failure, and the end of the
/// sidecar process is not acted on.
pub proof fn lemma_settled_is_final(
    spec: SidecarSpecView,
    state: LaunchStateView,
    events: Seq<LaunchEventView>,
)
    requires
        state is Running || state is Aborted,
    ensures
        run_spec(spec, state, events).0 == state,
        run_spec(spec, state, events).1.len() == events.len(),
        forall|i: int|
            0 <= i < events.len() ==> #[trigger] run_spec(spec, state, events).1[i]
                is Nothing,
    decreases events.len(),
{
    if events.len() > 0 {
        lemma_settled_is_final(spec, state, events.drop_first());
    }
}

/// The operating system is asked to spawn at most once, and only if the
/// launch starts idle. The request then holds exactly the arguments of the
/// sidecar's spec, in their order.
pub proof fn lemma_spawns_at_most_once(
    spec: SidecarSpecView,
    state: LaunchStateView,
    events: Seq<LaunchEventView>,
)
    ensures
        forall|i: int, j: int|
            0 <= i < j < events.len() ==> !(#[trigger] run_spec(spec, state, events).1[i] is Spawn
                && #[trigger] run_spec(spec, state, events).1[j] is Spawn),
        forall|i: int|
            0 <= i < events.len() && #[trigger] run_spec(spec, state, events).1[i] is Spawn
                ==> state is Idle && run_spec(spec, state, events).1[i]->Spawn_0.args
                == spec.args,
    decreases events.len(),
{
    if events.len() > 0 {
        let (next, action) = step_spec(spec, state, events.first());
        let rest = events.drop_first();
        lemma_spawns_at_most_once(spec, next, rest);
        lemma_one_action_per_event(spec, next, rest);
        let actions = run_spec(spec, state, events).1;
        let later = run_spec(spec, next, rest).1;
        assert forall|i: int| 0 < i < events.len() implies actions[i] == later[i - 1] by {}
    }
}

/// A binary that does not resolve ends the launch at once: the host is told
/// to abort with `NotFound`, and whatever is reported afterwards, it is
/// asked for nothing more.
pub proof fn lemma_unresolved_binary_ends_the_launch(
    spec: SidecarSpecView,
    later: Seq<LaunchEventView>,
)
    ensures
        ({
            let events = seq![LaunchEventView::Resolved(None)] + later;
            let (state, actions) = run_spec(spec, LaunchStateView::Idle, events);
            &&& state == LaunchStateView::Aborted(LaunchErrorView::NotFound(spec.binary))
            &&& actions.len() == events.len()
            &&& actions[0] == LaunchActionView::Abort(LaunchErrorView::NotFound(spec.binary))
            &&& forall|i: int| 1 <= i < actions.len() ==> #[trigger] actions[i] is Nothing
        }),
{
    let events = seq![LaunchEventView::Resolved(None)] + later;
    let aborted = LaunchStateView::Aborted(LaunchErrorView::NotFound(spec.binary));
    assert(events.drop_first() =~= later);
    assert(events.first() == LaunchEventView::Resolved(None));
    lemma_settled_is_final(spec, aborted, later);
    let actions = run_spec(spec, LaunchStateView::Idle, events).1;
    let rest = run_spec(spec, aborted, later).1;
    assert forall|i: int| 1 <= i < actions.len() implies #[trigger] actions[i] is Nothing by {
        assert(actions[i] == rest[i - 1]);
    }
}

/// A binary that resolves and a spawn that succeeds bring the sidecar up:
/// the one request handed out is for the resolved executable with exactly
/// the arguments of the spec, and the launch ends with the new process.
pub proof fn lemma_resolved_and_spawned_runs(spec: SidecarSpecView, program: Seq<char>, pid: u32)
    ensures
        run_spec(
            spec,
            LaunchStateView::Idle,
            seq![LaunchEventView::Resolved(Some(program)), LaunchEventView::SpawnReturned(Ok(pid))],
        ) == (
            LaunchStateView::Running(pid),
            seq![
                LaunchActionView::Spawn(SpawnRequestView { program, args: spec.args }),
                LaunchActionView::Nothing,
            ],
        ),
{
    let events =
        seq![LaunchEventView::Resolved(Some(program)), LaunchEventView::SpawnReturned(Ok(pid))];
    let second = events.drop_first();
    assert(second.first() == LaunchEventView::SpawnReturned(Ok(pid)));
    assert(second.drop_first().len() == 0);
    reveal_with_fuel(run_spec, 3);
    let actions = run_spec(spec, LaunchStateView::Idle, events).1;
    assert(actions =~= seq![
        LaunchActionView::Spawn(SpawnRequestView { program, args: spec.args }),
        LaunchActionView::Nothing,
    ]);
}

/// Told what the resource table resolves the binary to and then what the
/// operating system answered, the supervisor ends where a launch in one
/// call does: with the process, with `SpawnFailed` and the reason, or, where
/// the binary does not resolve, with `NotFound` whatever the answer.
pub proof fn lemma_supervisor_agrees_with_launch(
    spec: SidecarSpecView,
    table: Seq<ResourceEntryView>,
    target: Seq<char>,
    outcome: Result<u32, Seq<char>>,
)
    ensures
        settled_spec(
            run_spec(
                spec,
                LaunchStateView::Idle,
                seq![
                    LaunchEventView::Resolved(resolve_spec(table, spec.binary, target)),
                    LaunchEventView::SpawnReturned(outcome),
                ],
            ).0,
        ) == Some(
            match plan_spec(spec, table, target) {
                Ok(_) => conclude_spec(outcome),
                Err(error) => Err(error),
            },
        ),
{
    let events = seq![
        LaunchEventView::Resolved(resolve_spec(table, spec.binary, target)),
        LaunchEventView::SpawnReturned(outcome),
    ];
    let second = events.drop_first();
    assert(second.first() == LaunchEventView::SpawnReturned(outcome));
    assert(second.drop_first().len() == 0);
    reveal_with_fuel(run_spec, 3);
}

/// The supervisor of one sidecar: what to launch, and where the launch
/// stands.
#[derive(Debug, PartialEq, Eq)]
pub struct Supervisor {
    spec: SidecarSpec,
    state: LaunchState,
}

/// A [`Supervisor`] by the views of what it holds.
pub struct SupervisorView {
    pub spec: SidecarSpecView,
    pub state: LaunchStateView,
}

impl View for Supervisor {
    type V = SupervisorView;

    closed spec fn view(&self) -> SupervisorView {
        SupervisorView { spec: self.spec@, state: self.state@ }
    }
}

impl Supervisor {
    /// The supervisor of `spec`, before anything has happened.
    pub fn new(spec: SidecarSpec) -> (supervisor: Supervisor)
        ensures
            supervisor@ == (SupervisorView { spec: spec@, state: LaunchStateView::Idle }),
    {
        Supervisor { spec, state: LaunchState::Idle }
    }

    /// What is being launched.
    pub fn spec(&self) -> (spec: &SidecarSpec)
        ensures
            spec@ == self@.spec,
    {
        &self.spec
    }

    /// Where the launch stands.
    pub fn state(&self) -> (state: &LaunchState)
        ensures
            state@ == self@.state,
    {
        &self.state
    }

    /// The result of the launch, once it is over.
    pub fn into_result(self) -> (result: Option<Result<SidecarHandle, LaunchError>>)
        ensures
            match settled_spec(self@.state) {
                Some(expected) => result is Some && launched(result->Some_0) == expected,
                None => result is None,
            },
    {
        match self.state {
            LaunchState::Running(handle) => Some(Ok(handle)),
            LaunchState::Aborted(error) => Some(Err(error)),
            _ => None,
        }
    }

    /// Takes `event` in: the supervisor as it is afterwards, and what the
    /// host is to do.
    pub fn step(self, event: LaunchEvent) -> (next: (Supervisor, LaunchAction))
        ensures
            next.0@.spec == self@.spec,
            (next.0@.state, next.1@) == step_spec(self@.spec, self@.state, event@),
    {
        let Supervisor { spec, state } = self;
        match (state, event) {
            (LaunchState::Idle, LaunchEvent::Resolved(Some(program))) => {
                let request = spec.request(program);
                (Supervisor { spec, state: LaunchState::Spawning }, LaunchAction::Spawn(request))
            },
            (LaunchState::Idle, LaunchEvent::Resolved(None)) => {
                let error = LaunchError::NotFound(String::from_str(spec.binary()));
                let reported = error.duplicate();
                (
                    Supervisor { spec, state: LaunchState::Aborted(error) },
                    LaunchAction::Abort(reported),
                )
            },
            (LaunchState::Spawning, LaunchEvent::SpawnReturned(outcome)) => {
                match conclude(outcome) {
                    Ok(handle) => (
                        Supervisor { spec, state: LaunchState::Running(handle) },
                        LaunchAction::Nothing,
                    ),
                    Err(error) => {
                        let reported = error.duplicate();
                        (
                            Supervisor { spec, state: LaunchState::Aborted(error) },
                            LaunchAction::Abort(reported),
                        )
                    },
                }
            },
            (state, _) => (Supervisor { spec, state }, LaunchAction::Nothing),
        }
    }
}

} // verus!
