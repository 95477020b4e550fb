//! The dispatch of one invocation, as a state machine. The caller performs
//! each action the machine asks for (acquires the runner, builds the
//! components, runs the handler or the service) and reports what came of it
//! as an event; the machine decides what follows.

use vstd::prelude::*;
use crate::author::{author_source, resolve_author, AuthorFlags, AuthorSource};
use crate::command::{Command, ExecutionModel};
use crate::identity::{AccountId, WellKnownName};
use crate::launcher::{launch_decision, select_service, LaunchError, Role, Service};

verus! {

/// What the command line asked for.
#[derive(Clone, Copy, Debug, PartialEq, Eq)]
pub struct Invocation {
    pub command: Command,
    pub author_flags: AuthorFlags,
    /// The author account given explicitly, if any.
    pub author_id: Option<AccountId>,
    /// Whether blocks are produced on request rather than by a timer.
    pub manual_seal: bool,
}

/// How far the dispatch of an invocation has come.
#[derive(Clone, Copy, Debug, PartialEq, Eq)]
pub enum Phase {
    /// A runner for the command was asked for.
    AwaitingRunner,
    /// The partial component set is being built.
    AwaitingComponents,
    /// The identity of a well-known name is being derived, for a node of
    /// the given role.
    AwaitingIdentity(Role),
    /// The handler of the command, or the node's service, is running.
    Working,
    /// The outcome was reported.
    Finished,
}

/// What the caller reports back.
#[derive(Debug, PartialEq, Eq)]
pub enum Event<E> {
    /// The runner is there, and the configuration resolves to this role.
    RunnerReady(Role),
    /// The partial component set is built.
    ComponentsReady,
    /// The identity asked for was derived.
    IdentityDerived(AccountId),
    /// The work that was running came to its end, and the runner tore its
    /// task scheduler down.
    WorkDone,
    /// What was asked for last failed with this error.
    Failed(E),
}

/// How an invocation ended.
#[derive(Debug, PartialEq, Eq)]
pub enum Outcome<E> {
    Completed,
    /// A precondition of this layer was not met; nothing was started.
    Refused(LaunchError),
    /// A collaborator failed; the error is the collaborator's own.
    Failed(E),
}

/// What the caller is asked to do next.
#[derive(Debug, PartialEq, Eq)]
pub enum Action<E> {
    /// Acquire a runner bound to the execution model.
    AcquireRunner(ExecutionModel),
    /// Build the partial component set from the configuration, without a
    /// seed.
    BuildComponents { manual_seal: bool },
    /// Run the handler of the maintenance command on its inputs.
    RunHandler(Command),
    /// Derive the account of the well-known name.
    DeriveIdentity(WellKnownName),
    /// Start the light service.
    StartLight,
    /// Start the full service.
    StartFull { manual_seal: bool, author: Option<AccountId> },
    /// Report the outcome; nothing follows.
    Exit(Outcome<E>),
}

/// The dispatch of one invocation.
#[derive(Clone, Copy, Debug, PartialEq, Eq)]
pub struct Dispatch {
    pub invocation: Invocation,
    pub phase: Phase,
}

impl Invocation {
    /// The source of the node's author identity.
    pub open spec fn spec_author(self) -> AuthorSource {
        author_source(self.author_flags, self.author_id)
    }

    pub fn author(&self) -> (source: AuthorSource)
        ensures
            source == self.spec_author(),
    {
        resolve_author(&self.author_flags, self.author_id)
    }
}

impl Dispatch {
    /// The same dispatch in another phase.
    pub open spec fn at(self, phase: Phase) -> Dispatch {
        Dispatch { invocation: self.invocation, phase }
    }

    /// Which phases an invocation can be in: components are only awaited
    /// for a command that needs them, and an identity only for a node whose
    /// author is a well-known name.
    pub open spec fn wf(self) -> bool {
        match self.phase {
            Phase::AwaitingComponents => self.invocation.command.spec_needs_components(),
            Phase::AwaitingIdentity(_) => self.invocation.command == Command::RunNode
                && self.invocation.spec_author() is WellKnown,
            _ => true,
        }
    }

    /// Where the dispatch of an invocation begins, and the first action: a
    /// runner bound to the execution model of the command.
    pub open spec fn spec_start<E>(invocation: Invocation) -> (Dispatch, Action<E>) {
        (
            Dispatch { invocation, phase: Phase::AwaitingRunner },
            Action::AcquireRunner(invocation.command.spec_execution_model()),
        )
    }

    /// Starts a node of the given role with the given author, or refuses
    /// it.
    pub open spec fn spec_launch<E>(self, role: Role, author: Option<AccountId>) -> (
        Dispatch,
        Action<E>,
    ) {
        match launch_decision(role, author is Some) {
            Err(refusal) => (self.at(Phase::Finished), Action::Exit(Outcome::Refused(refusal))),
            Ok(Service::Light) => (self.at(Phase::Working), Action::StartLight),
            Ok(Service::Full) => (
                self.at(Phase::Working),
                Action::StartFull { manual_seal: self.invocation.manual_seal, author },
            ),
        }
    }

    /// What follows once the runner is there. A blocking command runs its
    /// handler at once; a command that is awaited and torn down first has
    /// its components built; the node resolves its author.
    pub open spec fn spec_proceed<E>(self, role: Role) -> (Dispatch, Action<E>) {
        match self.invocation.command.spec_execution_model() {
            ExecutionModel::Blocking => (
                self.at(Phase::Working),
                Action::RunHandler(self.invocation.command),
            ),
            ExecutionModel::SuspendAndTeardown => (
                self.at(Phase::AwaitingComponents),
                Action::BuildComponents { manual_seal: self.invocation.manual_seal },
            ),
            ExecutionModel::SuspendUntilShutdown => match self.invocation.spec_author() {
                AuthorSource::WellKnown(name) => (
                    self.at(Phase::AwaitingIdentity(role)),
                    Action::DeriveIdentity(name),
                ),
                AuthorSource::Configured(account) => self.spec_launch(role, Some(account)),
                AuthorSource::Unset => self.spec_launch(role, None),
            },
        }
    }

    /// The transition function: the state after an event, and the action it
    /// calls for. An event that the phase does not wait for changes nothing
    /// and calls for nothing.
    pub open spec fn spec_step<E>(self, event: Event<E>) -> (Dispatch, Option<Action<E>>) {
        match (self.phase, event) {
            (Phase::AwaitingRunner, Event::RunnerReady(role)) => {
                let (next, action) = self.spec_proceed::<E>(role);
                (next, Some(action))
            },
            (Phase::AwaitingComponents, Event::ComponentsReady) => (
                self.at(Phase::Working),
                Some(Action::RunHandler(self.invocation.command)),
            ),
            (Phase::AwaitingIdentity(role), Event::IdentityDerived(account)) => {
                let (next, action) = self.spec_launch::<E>(role, Some(account));
                (next, Some(action))
            },
            (Phase::Working, Event::WorkDone) => (
                self.at(Phase::Finished),
                Some(Action::Exit(Outcome::Completed)),
            ),
            (Phase::AwaitingRunner, Event::Failed(error)) => (
                self.at(Phase::Finished),
                Some(Action::Exit(Outcome::Failed(error))),
            ),
            (Phase::AwaitingComponents, Event::Failed(error)) => (
                self.at(Phase::Finished),
                Some(Action::Exit(Outcome::Failed(error))),
            ),
            (Phase::Working, Event::Failed(error)) => (
                self.at(Phase::Finished),
                Some(Action::Exit(Outcome::Failed(error))),
            ),
            _ => (self, None),
        }
    }

    /// The state a run of events leads to.
    pub open spec fn spec_after<E>(self, events: Seq<Event<E>>) -> Dispatch
        decreases events.len(),
    {
        if events.len() == 0 {
            self
        } else {
            self.spec_step(events[0]).0.spec_after(events.drop_first())
        }
    }

    /// The actions a run of events calls for, in order.
    pub open spec fn spec_actions<E>(self, events: Seq<Event<E>>) -> Seq<Action<E>>
        decreases events.len(),
    {
        if events.len() == 0 {
            Seq::empty()
        } else {
            let (next, action) = self.spec_step(events[0]);
            let rest = next.spec_actions(events.drop_first());
            match action {
                Some(first) => seq![first] + rest,
                None => rest,
            }
        }
    }

    /// Begins the dispatch of an invocation.
    pub fn start<E>(invocation: Invocation) -> (begun: (Dispatch, Action<E>))
        ensures
            begun == Dispatch::spec_start::<E>(invocation),
            begun.0.wf(),
    {
        let model = invocation.command.execution_model();
        (Dispatch { invocation, phase: Phase::AwaitingRunner }, Action::AcquireRunner(model))
    }

    fn launch<E>(self, role: Role, author: Option<AccountId>) -> (next: (Dispatch, Action<E>))
        ensures
            next == self.spec_launch::<E>(role, author),
    {
        let invocation = self.invocation;
        match select_service(role, author.is_some()) {
            Err(refusal) => (
                Dispatch { invocation, phase: Phase::Finished },
                Action::Exit(Outcome::Refused(refusal)),
            ),
            Ok(Service::Light) => (
                Dispatch { invocation, phase: Phase::Working },
                Action::StartLight,
            ),
            Ok(Service::Full) => (
                Dispatch { invocation, phase: Phase::Working },
                Action::StartFull { manual_seal: invocation.manual_seal, author },
            ),
        }
    }

    fn proceed<E>(self, role: Role) -> (next: (Dispatch, Action<E>))
        ensures
            next == self.spec_proceed::<E>(role),
    {
        let invocation = self.invocation;
        match invocation.command.execution_model() {
            ExecutionModel::Blocking => (
                Dispatch { invocation, phase: Phase::Working },
                Action::RunHandler(invocation.command),
            ),
            ExecutionModel::SuspendAndTeardown => (
                Dispatch { invocation, phase: Phase::AwaitingComponents },
                Action::BuildComponents { manual_seal: invocation.manual_seal },
            ),
            ExecutionModel::SuspendUntilShutdown => match invocation.author() {
                AuthorSource::WellKnown(name) => (
                    Dispatch { invocation, phase: Phase::AwaitingIdentity(role) },
                    Action::DeriveIdentity(name),
                ),
                AuthorSource::Configured(account) => self.launch(role, Some(account)),
                AuthorSource::Unset => self.launch(role, None),
            },
        }
    }

    /// Takes one event and answers with the state that follows and the
    /// action to perform, if the event was waited for.
    pub fn step<E>(self, event: Event<E>) -> (next: (Dispatch, Option<Action<E>>))
        ensures
            next == self.spec_step(event),
            self.wf() ==> next.0.wf(),
    {
        let invocation = self.invocation;
        let finished = Dispatch { invocation, phase: Phase::Finished };
        match self.phase {
            Phase::AwaitingRunner => match event {
                Event::RunnerReady(role) => {
                    let (next, action) = self.proceed(role);
                    (next, Some(action))
                },
                Event::Failed(error) => (finished, Some(Action::Exit(Outcome::Failed(error)))),
                _ => (self, None),
            },
            Phase::AwaitingComponents => match event {
                Event::ComponentsReady => (
                    Dispatch { invocation, phase: Phase::Working },
                    Some(Action::RunHandler(invocation.command)),
                ),
                Event::Failed(error) => (finished, Some(Action::Exit(Outcome::Failed(error)))),
                _ => (self, None),
            },
            Phase::AwaitingIdentity(role) => match event {
                Event::IdentityDerived(account) => {
                    let (next, action) = self.launch(role, Some(account));
                    (next, Some(action))
                },
                _ => (self, None),
            },
            Phase::Working => match event {
                Event::WorkDone => (finished, Some(Action::Exit(Outcome::Completed))),
                Event::Failed(error) => (finished, Some(Action::Exit(Outcome::Failed(error)))),
                _ => (self, None),
            },
            Phase::Finished => (self, None),
        }
    }

    /// Whether the outcome was reported.
    pub fn is_finished(&self) -> (finished: bool)
        ensures
            finished == (self.phase == Phase::Finished),
    {
        match self.phase {
            Phase::Finished => true,
            _ => false,
        }
    }
}

/// The whole dispatch of an invocation whose collaborators report the given
/// events in this order: the state it ends in, and every action it asks for,
/// from acquiring the runner on.
pub open spec fn spec_run<E>(invocation: Invocation, events: Seq<Event<E>>) -> (
    Dispatch,
    Seq<Action<E>>,
) {
    let (begun, first) = Dispatch::spec_start::<E>(invocation);
    (begun.spec_after(events), seq![first] + begun.spec_actions(events))
}

/// Dispatches an invocation against a record of what its collaborators
/// reported, and answers with the state reached and the actions asked for.
pub fn run<E>(invocation: Invocation, events: Vec<Event<E>>) -> (report: (
    Dispatch,
    Vec<Action<E>>,
))
    ensures
        report.0 == spec_run(invocation, events@).0,
        report.1@ == spec_run(invocation, events@).1,
        report.0.wf(),
{
    let (begun, first) = Dispatch::start::<E>(invocation);
    let mut dispatch = begun;
    let mut actions: Vec<Action<E>> = Vec::new();
    actions.push(first);
    let ghost all = events@;
    proof {
        assert(all.skip(0) =~= all);
        assert(actions@ =~= seq![first]);
    }
    for event in iter: events
        invariant
            iter.seq() == all,
            dispatch.wf(),
            begun.spec_after(all) == dispatch.spec_after(all.skip(iter.index())),
            seq![first] + begun.spec_actions(all) == actions@ + dispatch.spec_actions(
                all.skip(iter.index()),
            ),
    {
        proof {
            let rest = all.skip(iter.index());
            assert(rest[0] == event);
            assert(rest.drop_first() =~= all.skip(iter.index() + 1));
        }
        let ghost before = actions@;
        let ghost tail = dispatch.spec_step(event).0.spec_actions(all.skip(iter.index() + 1));
        let (next, action) = dispatch.step(event);
        dispatch = next;
        match action {
            Some(asked) => {
                actions.push(asked);
                assert(before + (seq![asked] + tail) =~= actions@ + tail);
            },
            None => {},
        }
    }
    proof {
        assert(all.skip(all.len() as int) =~= Seq::<Event<E>>::empty());
        assert(actions@ + Seq::<Action<E>>::empty() =~= actions@);
    }
    (dispatch, actions)
}

impl<E> Action<E> {
    /// Whether the action starts a service of the node.
    pub open spec fn starts_service(self) -> bool {
        self is StartLight || self is StartFull
    }

    /// Whether the action belongs to a maintenance command with this
    /// handler: running the handler, or the report at the end.
    pub open spec fn is_handler_or_exit(self, command: Command) -> bool {
        self == Action::<E>::RunHandler(command) || self is Exit
    }
}

/// Whether every action of a sequence satisfies a predicate.
pub open spec fn all_actions<E>(actions: Seq<Action<E>>, allowed: spec_fn(Action<E>) -> bool) -> bool {
    forall|i: int| 0 <= i < actions.len() ==> allowed(#[trigger] actions[i])
}

/// If a set of states is closed under the transition function, and every
/// action called for from one of its states is allowed, then every action of
/// every run from one of its states is allowed.
pub proof fn lemma_actions_of_closed_set<E>(
    from: Dispatch,
    events: Seq<Event<E>>,
    inside: spec_fn(Dispatch) -> bool,
    allowed: spec_fn(Action<E>) -> bool,
    expected: spec_fn(Event<E>) -> bool,
)
    requires
        inside(from),
        forall|i: int| 0 <= i < events.len() ==> expected(#[trigger] events[i]),
        forall|d: Dispatch, event: Event<E>|
            inside(d) && expected(event) ==> inside(#[trigger] d.spec_step(event).0),
        forall|d: Dispatch, event: Event<E>|
            inside(d) && expected(event) ==> (#[trigger] d.spec_step(event).1 matches Some(
                action,
            ) ==> allowed(action)),
    ensures
        inside(from.spec_after(events)),
        all_actions(from.spec_actions(events), allowed),
    decreases events.len(),
{
    if events.len() > 0 {
        let (next, action) = from.spec_step(events[0]);
        let later = events.drop_first();
        assert(expected(events[0]));
        assert forall|i: int| 0 <= i < later.len() implies expected(#[trigger] later[i]) by {
            assert(later[i] == events[i + 1]);
        }
        lemma_actions_of_closed_set(next, later, inside, allowed, expected);
        let rest = next.spec_actions(later);
        let actions = from.spec_actions(events);
        assert forall|i: int| 0 <= i < actions.len() implies allowed(#[trigger] actions[i]) by {
            match action {
                Some(first) => {
                    if i > 0 {
                        assert(actions[i] == rest[i - 1]);
                    }
                },
                None => {},
            }
        }
    }
}

/// Once the outcome is reported nothing follows: whatever is reported to a
/// finished dispatch, it stays as it is and asks for nothing.
pub proof fn law_finished_is_final<E>(dispatch: Dispatch, events: Seq<Event<E>>)
    requires
        dispatch.phase == Phase::Finished,
    ensures
        dispatch.spec_after(events) == dispatch,
        dispatch.spec_actions(events) == Seq::<Action<E>>::empty(),
    decreases events.len(),
{
    if events.len() > 0 {
        law_finished_is_final(dispatch, events.drop_first());
    }
}

/// An outcome is reported by exactly the steps that finish the dispatch.
pub proof fn law_exit_finishes<E>(dispatch: Dispatch, event: Event<E>)
    requires
        dispatch.phase != Phase::Finished,
    ensures
        dispatch.spec_step(event).0.phase == Phase::Finished <==> (dispatch.spec_step(event).1
            matches Some(action) && action is Exit),
        dispatch.spec_step(event).0.invocation == dispatch.invocation,
        dispatch.wf() ==> dispatch.spec_step(event).0.wf(),
{
}

/// An error of a collaborator is the outcome, unchanged, whichever of the
/// runner, the component set or the work itself failed; and nothing is asked
/// for after it.
pub proof fn law_failure_is_reported_verbatim<E>(
    dispatch: Dispatch,
    error: E,
    later: Seq<Event<E>>,
)
    requires
        dispatch.phase == Phase::AwaitingRunner || dispatch.phase == Phase::AwaitingComponents
            || dispatch.phase == Phase::Working,
    ensures
        dispatch.spec_actions(seq![Event::Failed(error)] + later) == seq![
            Action::Exit(Outcome::Failed(error)),
        ],
        dispatch.spec_after(seq![Event::Failed(error)] + later).phase == Phase::Finished,
{
    let events = seq![Event::Failed(error)] + later;
    assert(events[0] == Event::Failed(error));
    assert(events.drop_first() =~= later);
    let next = dispatch.spec_step(events[0]).0;
    law_finished_is_final(next, later);
    assert(dispatch.spec_actions(events) =~= seq![Action::Exit(Outcome::Failed(error))]);
}

/// Every action of a run is allowed where the first one is, and every
/// action that follows it.
proof fn lemma_all_actions_of_run<E>(
    invocation: Invocation,
    events: Seq<Event<E>>,
    allowed: spec_fn(Action<E>) -> bool,
)
    requires
        allowed(Dispatch::spec_start::<E>(invocation).1),
        all_actions(Dispatch::spec_start::<E>(invocation).0.spec_actions(events), allowed),
    ensures
        all_actions(spec_run(invocation, events).1, allowed),
{
    let (begun, first) = Dispatch::spec_start::<E>(invocation);
    let rest = begun.spec_actions(events);
    let actions = spec_run(invocation, events).1;
    assert forall|i: int| 0 <= i < actions.len() implies allowed(#[trigger] actions[i]) by {
        if i > 0 {
            assert(actions[i] == rest[i - 1]);
        }
    }
}

/// Whatever is reported, a run ends in a state of the same invocation that
/// is well formed.
pub proof fn law_runs_stay_well_formed<E>(invocation: Invocation, events: Seq<Event<E>>)
    ensures
        spec_run(invocation, events).0.invocation == invocation,
        spec_run(invocation, events).0.wf(),
{
    lemma_actions_of_closed_set(
        Dispatch::spec_start::<E>(invocation).0,
        events,
        |d: Dispatch| d.invocation == invocation && d.wf(),
        |action: Action<E>| true,
        |event: Event<E>| true,
    );
}

/// A maintenance command that works on a partial component set asks for the
/// set once its runner is there, and where building the set fails, the
/// command ends with that error: its handler is never run, whatever is
/// reported afterwards.
pub proof fn law_construction_failure_ends_command<E>(
    invocation: Invocation,
    role: Role,
    error: E,
    later: Seq<Event<E>>,
)
    requires
        invocation.command.spec_needs_components(),
    ensures
        spec_run(invocation, seq![Event::RunnerReady(role), Event::Failed(error)] + later).1
            == seq![
            Action::AcquireRunner(ExecutionModel::SuspendAndTeardown),
            Action::BuildComponents { manual_seal: invocation.manual_seal },
            Action::Exit(Outcome::Failed(error)),
        ],
        spec_run(
            invocation,
            seq![Event::RunnerReady(role), Event::Failed(error)] + later,
        ).0.phase == Phase::Finished,
{
    let begun = Dispatch::spec_start::<E>(invocation).0;
    let events = seq![Event::RunnerReady(role), Event::Failed(error)] + later;
    let awaiting = begun.spec_step(events[0]).0;
    assert(events[0] == Event::<E>::RunnerReady(role));
    assert(awaiting.phase == Phase::AwaitingComponents);
    assert(events.drop_first() =~= seq![Event::Failed(error)] + later);
    law_failure_is_reported_verbatim(awaiting, error, later);
    assert(begun.spec_actions(events) =~= seq![
        Action::BuildComponents { manual_seal: invocation.manual_seal },
        Action::Exit(Outcome::Failed(error)),
    ]);
    assert(spec_run(invocation, events).1 =~= seq![
        Action::AcquireRunner(ExecutionModel::SuspendAndTeardown),
        Action::BuildComponents { manual_seal: invocation.manual_seal },
        Action::Exit(Outcome::Failed(error)),
    ]);
}

/// A blocking command (building the specification, purging the chain) only
/// ever has its runner acquired, its own handler run and its outcome
/// reported: no partial component set is built for it, whatever is reported
/// back.
pub proof fn law_blocking_command_builds_nothing<E>(invocation: Invocation, events: Seq<Event<E>>)
    requires
        invocation.command.spec_execution_model() == ExecutionModel::Blocking,
    ensures
        all_actions(
            spec_run(invocation, events).1,
            |action: Action<E>|
                action == Action::<E>::AcquireRunner(ExecutionModel::Blocking)
                    || action.is_handler_or_exit(invocation.command),
        ),
{
    let allowed = |action: Action<E>|
        action == Action::<E>::AcquireRunner(ExecutionModel::Blocking)
            || action.is_handler_or_exit(invocation.command);
    lemma_actions_of_closed_set(
        Dispatch::spec_start::<E>(invocation).0,
        events,
        |d: Dispatch|
            d.invocation == invocation && d.phase != Phase::AwaitingComponents
                && !(d.phase is AwaitingIdentity),
        allowed,
        |event: Event<E>| true,
    );
    lemma_all_actions_of_run(invocation, events, allowed);
}

/// A maintenance command never starts a service of the node nor derives an
/// identity, and the node never has a handler run nor components built.
pub proof fn law_commands_and_node_are_apart<E>(invocation: Invocation, events: Seq<Event<E>>)
    ensures
        all_actions(
            spec_run(invocation, events).1,
            |action: Action<E>|
                if invocation.command.spec_is_maintenance() {
                    !action.starts_service() && !(action is DeriveIdentity)
                } else {
                    !(action is RunHandler) && !(action is BuildComponents)
                },
        ),
{
    let allowed = |action: Action<E>|
        if invocation.command.spec_is_maintenance() {
            !action.starts_service() && !(action is DeriveIdentity)
        } else {
            !(action is RunHandler) && !(action is BuildComponents)
        };
    lemma_actions_of_closed_set(
        Dispatch::spec_start::<E>(invocation).0,
        events,
        |d: Dispatch|
            d.invocation == invocation && if invocation.command.spec_is_maintenance() {
                !(d.phase is AwaitingIdentity)
            } else {
                d.phase != Phase::AwaitingComponents
            },
        allowed,
        |event: Event<E>| true,
    );
    lemma_all_actions_of_run(invocation, events, allowed);
}

/// A validator that nothing names an author for is refused as soon as its
/// runner is there, and as long as the configuration resolves to the
/// validator role no service is ever started for it.
pub proof fn law_unnamed_validator_starts_nothing<E>(
    invocation: Invocation,
    events: Seq<Event<E>>,
)
    requires
        invocation.command == Command::RunNode,
        invocation.spec_author() is Unset,
        forall|i: int|
            0 <= i < events.len() ==> (#[trigger] events[i] matches Event::RunnerReady(role)
                ==> role == Role::Validator),
    ensures
        spec_run(invocation, seq![Event::<E>::RunnerReady(Role::Validator)]).0 == (Dispatch {
            invocation,
            phase: Phase::Finished,
        }),
        spec_run(invocation, seq![Event::<E>::RunnerReady(Role::Validator)]).1 == seq![
            Action::<E>::AcquireRunner(ExecutionModel::SuspendUntilShutdown),
            Action::<E>::Exit(Outcome::Refused(LaunchError::MissingAuthor)),
        ],
        all_actions(spec_run(invocation, events).1, |action: Action<E>| !action.starts_service()),
{
    let allowed = |action: Action<E>| !action.starts_service();
    let begun = Dispatch::spec_start::<E>(invocation).0;
    lemma_actions_of_closed_set(
        begun,
        events,
        |d: Dispatch|
            d.invocation == invocation && (d.phase == Phase::AwaitingRunner || d.phase
                == Phase::Finished),
        allowed,
        |event: Event<E>| event matches Event::RunnerReady(role) ==> role == Role::Validator,
    );
    lemma_all_actions_of_run(invocation, events, allowed);

    let one = seq![Event::<E>::RunnerReady(Role::Validator)];
    let refused = begun.spec_step(one[0]).0;
    assert(one.drop_first() =~= Seq::<Event<E>>::empty());
    assert(refused.spec_actions(one.drop_first()) =~= Seq::<Action<E>>::empty());
    assert(refused.spec_after(one.drop_first()) == refused);
    assert(spec_run(invocation, one).1 =~= seq![
        Action::<E>::AcquireRunner(ExecutionModel::SuspendUntilShutdown),
        Action::<E>::Exit(Outcome::Refused(LaunchError::MissingAuthor)),
    ]);
}

/// A node in development mode authors as Alice: the identity asked for is
/// hers, and the account derived for her is the author the full service is
/// started with.
pub proof fn law_development_node_authors_as_alice<E>(
    invocation: Invocation,
    role: Role,
    account: AccountId,
)
    requires
        invocation.command == Command::RunNode,
        invocation.author_flags.dev,
        role != Role::Light,
    ensures
        spec_run(
            invocation,
            seq![Event::<E>::RunnerReady(role), Event::<E>::IdentityDerived(account)],
        ).1 == seq![
            Action::<E>::AcquireRunner(ExecutionModel::SuspendUntilShutdown),
            Action::<E>::DeriveIdentity(WellKnownName::Alice),
            Action::<E>::StartFull { manual_seal: invocation.manual_seal, author: Some(account) },
        ],
{
    crate::author::law_development_mode_wins(invocation.author_flags, invocation.author_id);
    let begun = Dispatch::spec_start::<E>(invocation).0;
    let events = seq![Event::<E>::RunnerReady(role), Event::<E>::IdentityDerived(account)];
    let awaiting = begun.spec_step(events[0]).0;
    let later = events.drop_first();
    assert(later[0] == Event::<E>::IdentityDerived(account));
    let working = awaiting.spec_step(later[0]).0;
    assert(later.drop_first() =~= Seq::<Event<E>>::empty());
    assert(working.spec_actions(later.drop_first()) =~= Seq::<Action<E>>::empty());
    assert(awaiting.spec_actions(later) =~= seq![
        Action::<E>::StartFull { manual_seal: invocation.manual_seal, author: Some(account) },
    ]);
    assert(begun.spec_actions(events) =~= seq![
        Action::<E>::DeriveIdentity(WellKnownName::Alice),
        Action::<E>::StartFull { manual_seal: invocation.manual_seal, author: Some(account) },
    ]);
    assert(spec_run(invocation, events).1 =~= seq![
        Action::<E>::AcquireRunner(ExecutionModel::SuspendUntilShutdown),
        Action::<E>::DeriveIdentity(WellKnownName::Alice),
        Action::<E>::StartFull { manual_seal: invocation.manual_seal, author: Some(account) },
    ]);
}

} // verus!
