use node_command::author::{AuthorFlags, AuthorSource};
use node_command::command::{Command, ExecutionModel};
use node_command::dispatch::{Action, Dispatch, Event, Invocation, Outcome, Phase};
use node_command::identity::{AccountId, WellKnownName};
use node_command::launcher::{LaunchError, Role};

type Error = String;

const WITH_COMPONENTS: [Command; 5] = [
    Command::CheckBlock,
    Command::ExportBlocks,
    Command::ExportState,
    Command::ImportBlocks,
    Command::Revert,
];

const ROLES: [Role; 4] = [Role::Full, Role::Light, Role::Sentry, Role::Validator];

fn account(byte: u8) -> AccountId {
    AccountId { bytes: [byte; 20] }
}

fn invoke(command: Command) -> Invocation {
    Invocation { command, author_flags: AuthorFlags::none(), author_id: None, manual_seal: false }
}

fn node(author_flags: AuthorFlags, author_id: Option<AccountId>, manual_seal: bool) -> Invocation {
    Invocation { command: Command::RunNode, author_flags, author_id, manual_seal }
}

fn failed(text: &str) -> Event<Error> {
    Event::Failed(text.to_string())
}

fn run(invocation: Invocation, events: Vec<Event<Error>>) -> (Dispatch, Vec<Action<Error>>) {
    node_command::dispatch::run(invocation, events)
}

#[test]
fn a_run_is_its_steps_one_after_another() {
    let invocation = invoke(Command::ExportState);
    let (begun, first) = Dispatch::start::<Error>(invocation);
    let (awaiting, second) = begun.step::<Error>(Event::RunnerReady(Role::Full));
    let (stray, none) = awaiting.step::<Error>(Event::WorkDone);
    let (working, third) = stray.step::<Error>(Event::ComponentsReady);
    let (finished, fourth) = working.step(failed("no space left"));
    assert_eq!(none, None);

    let (end, actions) = run(
        invocation,
        vec![
            Event::RunnerReady(Role::Full),
            Event::WorkDone,
            Event::ComponentsReady,
            failed("no space left"),
        ],
    );
    assert_eq!(end, finished);
    assert_eq!(actions, vec![first, second.unwrap(), third.unwrap(), fourth.unwrap()]);
}

#[test]
fn a_run_without_events_only_asks_for_the_runner() {
    let (dispatch, actions) = run(invoke(Command::Revert), Vec::new());
    assert_eq!(dispatch.phase, Phase::AwaitingRunner);
    assert_eq!(actions, vec![Action::AcquireRunner(ExecutionModel::SuspendAndTeardown)]);
}

#[test]
fn dispatch_begins_by_asking_for_a_runner() {
    let (dispatch, action) = Dispatch::start::<Error>(invoke(Command::CheckBlock));
    assert_eq!(dispatch.phase, Phase::AwaitingRunner);
    assert_eq!(dispatch.invocation, invoke(Command::CheckBlock));
    assert_eq!(action, Action::AcquireRunner(ExecutionModel::SuspendAndTeardown));
    assert!(!dispatch.is_finished());
}

#[test]
fn the_runner_is_bound_to_the_model_of_the_command() {
    let (_, action) = Dispatch::start::<Error>(invoke(Command::PurgeChain));
    assert_eq!(action, Action::AcquireRunner(ExecutionModel::Blocking));
    let (_, action) = Dispatch::start::<Error>(invoke(Command::RunNode));
    assert_eq!(action, Action::AcquireRunner(ExecutionModel::SuspendUntilShutdown));
}

#[test]
fn a_runner_that_cannot_be_had_ends_the_command() {
    for command in [Command::BuildSpec, Command::Revert, Command::RunNode] {
        let (dispatch, actions) = run(invoke(command), vec![failed("bad chain spec id")]);
        assert!(dispatch.is_finished());
        assert_eq!(
            actions,
            vec![
                Action::AcquireRunner(command.execution_model()),
                Action::Exit(Outcome::Failed("bad chain spec id".to_string())),
            ]
        );
    }
}

#[test]
fn purge_chain_only_deletes_the_database() {
    let (dispatch, actions) = run(
        invoke(Command::PurgeChain),
        vec![Event::RunnerReady(Role::Full), Event::WorkDone],
    );
    assert!(dispatch.is_finished());
    assert_eq!(
        actions,
        vec![
            Action::AcquireRunner(ExecutionModel::Blocking),
            Action::RunHandler(Command::PurgeChain),
            Action::Exit(Outcome::Completed),
        ]
    );
}

#[test]
fn purge_chain_builds_no_components_whatever_is_reported() {
    let (_, actions) = run(
        invoke(Command::PurgeChain),
        vec![
            Event::ComponentsReady,
            Event::RunnerReady(Role::Validator),
            Event::ComponentsReady,
            Event::IdentityDerived(account(1)),
            Event::RunnerReady(Role::Light),
            failed("disk full"),
            Event::WorkDone,
        ],
    );
    assert_eq!(
        actions,
        vec![
            Action::AcquireRunner(ExecutionModel::Blocking),
            Action::RunHandler(Command::PurgeChain),
            Action::Exit(Outcome::Failed("disk full".to_string())),
        ]
    );
}

#[test]
fn build_spec_runs_at_once() {
    let (dispatch, actions) = run(invoke(Command::BuildSpec), vec![Event::RunnerReady(Role::Full)]);
    assert_eq!(dispatch.phase, Phase::Working);
    assert_eq!(
        actions,
        vec![
            Action::AcquireRunner(ExecutionModel::Blocking),
            Action::RunHandler(Command::BuildSpec),
        ]
    );
}

#[test]
fn maintenance_commands_build_components_then_run() {
    for command in WITH_COMPONENTS {
        let mut invocation = invoke(command);
        invocation.manual_seal = true;
        let (dispatch, actions) = run(
            invocation,
            vec![Event::RunnerReady(Role::Full), Event::ComponentsReady, Event::WorkDone],
        );
        assert!(dispatch.is_finished());
        assert_eq!(
            actions,
            vec![
                Action::AcquireRunner(ExecutionModel::SuspendAndTeardown),
                Action::BuildComponents { manual_seal: true },
                Action::RunHandler(command),
                Action::Exit(Outcome::Completed),
            ]
        );
    }
}

#[test]
fn components_are_built_with_the_manual_seal_flag_of_the_invocation() {
    let (_, actions) = run(invoke(Command::Revert), vec![Event::RunnerReady(Role::Full)]);
    assert_eq!(actions[1], Action::BuildComponents { manual_seal: false });
}

#[test]
fn a_failed_construction_ends_the_command_with_that_error() {
    for command in WITH_COMPONENTS {
        let (dispatch, actions) = run(
            invoke(command),
            vec![Event::RunnerReady(Role::Full), failed("database is locked")],
        );
        assert!(dispatch.is_finished());
        assert_eq!(
            actions,
            vec![
                Action::AcquireRunner(ExecutionModel::SuspendAndTeardown),
                Action::BuildComponents { manual_seal: false },
                Action::Exit(Outcome::Failed("database is locked".to_string())),
            ]
        );
    }
}

#[test]
fn nothing_runs_after_a_failed_construction() {
    for command in WITH_COMPONENTS {
        let (dispatch, actions) = run(
            invoke(command),
            vec![
                Event::RunnerReady(Role::Full),
                failed("database is locked"),
                Event::ComponentsReady,
                Event::RunnerReady(Role::Full),
                Event::WorkDone,
                failed("again"),
            ],
        );
        assert!(dispatch.is_finished());
        assert_eq!(actions.len(), 3);
        assert!(!actions.contains(&Action::RunHandler(command)));
    }
}

#[test]
fn a_failing_handler_is_reported() {
    let (dispatch, actions) = run(
        invoke(Command::ImportBlocks),
        vec![Event::RunnerReady(Role::Full), Event::ComponentsReady, failed("bad block")],
    );
    assert!(dispatch.is_finished());
    assert_eq!(actions[3], Action::Exit(Outcome::Failed("bad block".to_string())));
}

#[test]
fn a_validator_without_an_author_is_refused_at_once() {
    let (dispatch, actions) =
        run(node(AuthorFlags::none(), None, false), vec![Event::RunnerReady(Role::Validator)]);
    assert!(dispatch.is_finished());
    assert_eq!(
        actions,
        vec![
            Action::AcquireRunner(ExecutionModel::SuspendUntilShutdown),
            Action::Exit(Outcome::Refused(LaunchError::MissingAuthor)),
        ]
    );
}

#[test]
fn a_refused_validator_never_starts_a_service() {
    let (_, actions) = run(
        node(AuthorFlags::none(), None, true),
        vec![
            Event::RunnerReady(Role::Validator),
            Event::IdentityDerived(account(1)),
            Event::RunnerReady(Role::Validator),
            Event::WorkDone,
        ],
    );
    assert_eq!(actions.len(), 2);
    for action in actions {
        assert!(!matches!(action, Action::StartLight | Action::StartFull { .. }));
    }
}

#[test]
fn development_mode_authors_as_alice_on_the_full_service() {
    let flags = AuthorFlags { dev: true, ..AuthorFlags::none() };
    let (dispatch, actions) = run(
        node(flags, None, false),
        vec![Event::RunnerReady(Role::Validator), Event::IdentityDerived(account(0xa1))],
    );
    assert_eq!(dispatch.phase, Phase::Working);
    assert_eq!(
        actions,
        vec![
            Action::AcquireRunner(ExecutionModel::SuspendUntilShutdown),
            Action::DeriveIdentity(WellKnownName::Alice),
            Action::StartFull { manual_seal: false, author: Some(account(0xa1)) },
        ]
    );
}

#[test]
fn development_mode_wins_over_bob_and_a_configured_account() {
    let flags = AuthorFlags { dev: true, bob: true, ..AuthorFlags::none() };
    let (_, actions) =
        run(node(flags, Some(account(5)), false), vec![Event::RunnerReady(Role::Full)]);
    assert_eq!(actions[1], Action::DeriveIdentity(WellKnownName::Alice));
}

#[test]
fn a_named_validator_waits_for_its_identity() {
    let flags = AuthorFlags { bob: true, ..AuthorFlags::none() };
    let (dispatch, actions) =
        run(node(flags, None, true), vec![Event::RunnerReady(Role::Validator)]);
    assert_eq!(dispatch.phase, Phase::AwaitingIdentity(Role::Validator));
    assert_eq!(actions[1], Action::DeriveIdentity(WellKnownName::Bob));
    let (dispatch, action) = dispatch.step::<Error>(Event::IdentityDerived(account(0xb0)));
    assert_eq!(dispatch.phase, Phase::Working);
    assert_eq!(action, Some(Action::StartFull { manual_seal: true, author: Some(account(0xb0)) }));
}

#[test]
fn a_configured_account_is_handed_to_the_full_service() {
    let (dispatch, actions) = run(
        node(AuthorFlags::none(), Some(account(7)), true),
        vec![Event::RunnerReady(Role::Validator)],
    );
    assert_eq!(dispatch.phase, Phase::Working);
    assert_eq!(
        actions[1],
        Action::StartFull { manual_seal: true, author: Some(account(7)) }
    );
}

#[test]
fn a_node_that_does_not_author_needs_no_author() {
    for role in [Role::Full, Role::Sentry] {
        let (_, actions) =
            run(node(AuthorFlags::none(), None, false), vec![Event::RunnerReady(role)]);
        assert_eq!(actions[1], Action::StartFull { manual_seal: false, author: None });
    }
}

#[test]
fn a_light_client_starts_the_light_service() {
    let (dispatch, actions) =
        run(node(AuthorFlags::none(), None, false), vec![Event::RunnerReady(Role::Light)]);
    assert_eq!(dispatch.phase, Phase::Working);
    assert_eq!(actions[1], Action::StartLight);

    let (_, actions) =
        run(node(AuthorFlags::none(), Some(account(2)), true), vec![Event::RunnerReady(Role::Light)]);
    assert_eq!(actions[1], Action::StartLight);
}

#[test]
fn a_light_client_in_development_mode_still_derives_alice() {
    let flags = AuthorFlags { dev: true, ..AuthorFlags::none() };
    let (_, actions) = run(
        node(flags, None, false),
        vec![Event::RunnerReady(Role::Light), Event::IdentityDerived(account(1))],
    );
    assert_eq!(
        actions,
        vec![
            Action::AcquireRunner(ExecutionModel::SuspendUntilShutdown),
            Action::DeriveIdentity(WellKnownName::Alice),
            Action::StartLight,
        ]
    );
}

#[test]
fn the_node_ends_on_shutdown() {
    let (dispatch, actions) = run(
        node(AuthorFlags::none(), None, false),
        vec![Event::RunnerReady(Role::Full), Event::WorkDone],
    );
    assert!(dispatch.is_finished());
    assert_eq!(actions[2], Action::Exit(Outcome::Completed));
}

#[test]
fn a_service_that_fails_is_reported() {
    let (dispatch, actions) = run(
        node(AuthorFlags::none(), None, false),
        vec![Event::RunnerReady(Role::Full), failed("address in use")],
    );
    assert!(dispatch.is_finished());
    assert_eq!(actions[2], Action::Exit(Outcome::Failed("address in use".to_string())));
}

#[test]
fn the_node_runs_no_handler_and_builds_no_components() {
    for role in ROLES {
        let flags = AuthorFlags { eve: true, ..AuthorFlags::none() };
        let (_, actions) = run(
            node(flags, None, false),
            vec![
                Event::ComponentsReady,
                Event::RunnerReady(role),
                Event::ComponentsReady,
                Event::IdentityDerived(account(1)),
                Event::ComponentsReady,
                Event::WorkDone,
            ],
        );
        for action in actions {
            assert!(!matches!(action, Action::RunHandler(_) | Action::BuildComponents { .. }));
        }
    }
}

#[test]
fn an_event_that_is_not_waited_for_changes_nothing() {
    let (begun, _) = Dispatch::start::<Error>(invoke(Command::CheckBlock));
    for event in [Event::ComponentsReady, Event::IdentityDerived(account(1)), Event::WorkDone] {
        let (next, action) = begun.step::<Error>(event);
        assert_eq!(next, begun);
        assert_eq!(action, None);
    }

    let flags = AuthorFlags { alice: true, ..AuthorFlags::none() };
    let (awaiting, _) = run(node(flags, None, false), vec![Event::RunnerReady(Role::Full)]);
    for event in [
        Event::RunnerReady(Role::Full),
        Event::ComponentsReady,
        Event::WorkDone,
        failed("no"),
    ] {
        let (next, action) = awaiting.step(event);
        assert_eq!(next, awaiting);
        assert_eq!(action, None);
    }
}

#[test]
fn a_finished_dispatch_answers_nothing() {
    let (finished, _) = run(invoke(Command::BuildSpec), vec![failed("no runner")]);
    assert!(finished.is_finished());
    for event in [
        Event::RunnerReady(Role::Full),
        Event::ComponentsReady,
        Event::IdentityDerived(account(1)),
        Event::WorkDone,
        failed("late"),
    ] {
        let (next, action) = finished.step(event);
        assert_eq!(next, finished);
        assert_eq!(action, None);
    }
}

#[test]
fn the_invocation_resolves_its_author() {
    let flags = AuthorFlags { dave: true, ..AuthorFlags::none() };
    assert_eq!(
        node(flags, Some(account(1)), false).author(),
        AuthorSource::WellKnown(WellKnownName::Dave)
    );
    assert_eq!(
        node(AuthorFlags::none(), Some(account(1)), false).author(),
        AuthorSource::Configured(account(1))
    );
    assert_eq!(node(AuthorFlags::none(), None, false).author(), AuthorSource::Unset);
}
