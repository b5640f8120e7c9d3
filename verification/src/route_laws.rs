use vstd::prelude::*;

use crate::command::{is_absolute_path, ExistingCommand};
use crate::outcome::{CommandOrigin, ProviderPolicy};
use crate::route::{
    route_step, CompatibilityCommand, RouteAction, RouteEvent, RouteFailure, RunOutcome,
};

verus! {

/// Whether an action ends the invocation.
pub open spec fn is_final(action: RouteAction) -> bool {
    action is Finish || action is Fail
}

/// The event that the outside work asked for by `action` produces, given how each piece of
/// that work turns out: the provider's run, whether its executable is absent, the existing
/// command's run. A final action asks for no work.
pub open spec fn answer(
    action: RouteAction,
    provider_run: RunOutcome,
    provider_absent: bool,
    existing_run: RunOutcome,
) -> Option<RouteEvent> {
    match action {
        RouteAction::RunProvider => Some(RouteEvent::ProviderRan(provider_run)),
        RouteAction::InspectProvider => Some(
            RouteEvent::ProviderInspected { absent: provider_absent },
        ),
        RouteAction::RunExisting => Some(RouteEvent::ExistingRan(existing_run)),
        _ => None,
    }
}

/// The actions that follow `event`, each answered in turn, for at most `steps` more answers.
pub open spec fn actions_after(
    command: CompatibilityCommand,
    event: RouteEvent,
    provider_run: RunOutcome,
    provider_absent: bool,
    existing_run: RunOutcome,
    steps: nat,
) -> Seq<RouteAction>
    decreases steps,
{
    let action = route_step(command, event);
    match answer(action, provider_run, provider_absent, existing_run) {
        Some(next) => if steps == 0 {
            seq![action]
        } else {
            seq![action] + actions_after(
                command,
                next,
                provider_run,
                provider_absent,
                existing_run,
                (steps - 1) as nat,
            )
        },
        None => seq![action],
    }
}

/// The actions of a whole invocation, from its beginning.
pub open spec fn route_actions(
    command: CompatibilityCommand,
    provider_run: RunOutcome,
    provider_absent: bool,
    existing_run: RunOutcome,
) -> Seq<RouteAction> {
    actions_after(command, RouteEvent::Begin, provider_run, provider_absent, existing_run, 3)
}

/// How an invocation ends once the existing command has run.
pub open spec fn existing_result(existing_run: RunOutcome) -> RouteAction {
    match existing_run {
        RunOutcome::Completed => RouteAction::Finish(CommandOrigin::Existing),
        RunOutcome::Failed { .. } => RouteAction::Fail(RouteFailure::ExistingError),
    }
}

/// Whether the provider is run: exactly when one is configured with an absolute program.
pub open spec fn runs_provider(command: CompatibilityCommand) -> bool {
    match command.configured_provider() {
        Some(provider) => is_absolute_path(provider.program_path()),
        None => false,
    }
}

/// Whether the existing command is run: with no provider under the optional policy, or, under
/// the optional policy, after the provider failed because its executable is absent.
pub open spec fn runs_existing(
    command: CompatibilityCommand,
    provider_run: RunOutcome,
    provider_absent: bool,
) -> bool {
    &&& command.policy() == ProviderPolicy::Optional
    &&& match command.configured_provider() {
        None => true,
        Some(provider) => {
            &&& is_absolute_path(provider.program_path())
            &&& provider_run == (RunOutcome::Failed { not_found: true })
            &&& provider_absent
        },
    }
}

/// How an invocation ends.
pub open spec fn route_result(
    command: CompatibilityCommand,
    provider_run: RunOutcome,
    provider_absent: bool,
    existing_run: RunOutcome,
) -> RouteAction {
    match command.configured_provider() {
        None => if command.policy() == ProviderPolicy::Optional {
            existing_result(existing_run)
        } else {
            RouteAction::Fail(RouteFailure::ProviderNotConfigured)
        },
        Some(provider) => if !is_absolute_path(provider.program_path()) {
            RouteAction::Fail(RouteFailure::ProviderNotAbsolute)
        } else if provider_run == RunOutcome::Completed {
            RouteAction::Finish(CommandOrigin::Provider)
        } else if runs_existing(command, provider_run, provider_absent) {
            existing_result(existing_run)
        } else {
            RouteAction::Fail(RouteFailure::ProviderError)
        },
    }
}

/// Every invocation ends: its last action finishes or fails, no earlier one does, and it
/// asks for at most three pieces of outside work, none of them twice. Its end is
/// `route_result`; the provider runs exactly when `runs_provider` holds and the existing
/// command exactly when `runs_existing` holds.
pub proof fn lemma_route_outcome(
    command: CompatibilityCommand,
    provider_run: RunOutcome,
    provider_absent: bool,
    existing_run: RunOutcome,
)
    ensures
        ({
            let actions = route_actions(command, provider_run, provider_absent, existing_run);
            &&& 1 <= actions.len() <= 4
            &&& is_final(actions.last())
            &&& forall|i: int| 0 <= i < actions.len() - 1 ==> !is_final(#[trigger] actions[i])
            &&& actions.last() == route_result(
                command,
                provider_run,
                provider_absent,
                existing_run,
            )
            &&& actions.contains(RouteAction::RunProvider) == runs_provider(command)
            &&& actions.contains(RouteAction::RunExisting) == runs_existing(
                command,
                provider_run,
                provider_absent,
            )
            &&& forall|i: int, j: int|
                0 <= i < actions.len() && 0 <= j < actions.len() && #[trigger] actions[i]
                    == #[trigger] actions[j] && !is_final(actions[i]) ==> i == j
        }),
{
    reveal_with_fuel(actions_after, 4);
    let actions = route_actions(command, provider_run, provider_absent, existing_run);
    let optional = command.policy() == ProviderPolicy::Optional;
    match command.configured_provider() {
        None => {
            if optional {
                assert(actions =~= seq![RouteAction::RunExisting, existing_result(existing_run)]);
                assert(actions[0] == RouteAction::RunExisting);
            } else {
                assert(actions =~= seq![RouteAction::Fail(RouteFailure::ProviderNotConfigured)]);
            }
        },
        Some(provider) => {
            if !is_absolute_path(provider.program_path()) {
                assert(actions =~= seq![RouteAction::Fail(RouteFailure::ProviderNotAbsolute)]);
            } else {
                match provider_run {
                    RunOutcome::Completed => {
                        assert(actions =~= seq![
                            RouteAction::RunProvider,
                            RouteAction::Finish(CommandOrigin::Provider),
                        ]);
                        assert(actions[0] == RouteAction::RunProvider);
                    },
                    RunOutcome::Failed { not_found } => {
                        if not_found && optional {
                            if provider_absent {
                                assert(actions =~= seq![
                                    RouteAction::RunProvider,
                                    RouteAction::InspectProvider,
                                    RouteAction::RunExisting,
                                    existing_result(existing_run),
                                ]);
                                assert(actions[2] == RouteAction::RunExisting);
                            } else {
                                assert(actions =~= seq![
                                    RouteAction::RunProvider,
                                    RouteAction::InspectProvider,
                                    RouteAction::Fail(RouteFailure::ProviderError),
                                ]);
                            }
                        } else {
                            assert(actions =~= seq![
                                RouteAction::RunProvider,
                                RouteAction::Fail(RouteFailure::ProviderError),
                            ]);
                        }
                        assert(actions[0] == RouteAction::RunProvider);
                    },
                }
            }
        },
    }
}

/// Under the required policy no event ever leads to running the existing command.
pub proof fn lemma_required_never_runs_existing(command: CompatibilityCommand, event: RouteEvent)
    requires
        command.policy() == ProviderPolicy::Required,
    ensures
        route_step(command, event) != RouteAction::RunExisting,
{
}

/// Once the provider has run, its result is the invocation's result, whatever it was.
pub proof fn lemma_started_provider_is_authoritative(command: CompatibilityCommand)
    ensures
        route_step(command, RouteEvent::ProviderRan(RunOutcome::Completed)) == RouteAction::Finish(
            CommandOrigin::Provider,
        ),
{
}

/// With no provider configured and the optional policy, the existing command runs unchanged
/// and its result, or its error, is the invocation's.
pub proof fn lemma_unconfigured_route_runs_existing(
    command: CompatibilityCommand,
    provider_run: RunOutcome,
    provider_absent: bool,
    existing_run: RunOutcome,
)
    requires
        command.configured_provider() == None::<ExistingCommand>,
        command.policy() == ProviderPolicy::Optional,
    ensures
        route_actions(command, provider_run, provider_absent, existing_run) == seq![
            RouteAction::RunExisting,
            existing_result(existing_run),
        ],
{
    reveal_with_fuel(actions_after, 2);
    assert(route_actions(command, provider_run, provider_absent, existing_run) =~= seq![
        RouteAction::RunExisting,
        existing_result(existing_run),
    ]);
}

/// A provider that runs, whether it succeeds or fails, is never followed by the existing
/// command unless it failed because a file was not found, the policy is optional and its
/// executable is absent.
pub proof fn lemma_fallback_only_when_absent(
    command: CompatibilityCommand,
    provider_run: RunOutcome,
    provider_absent: bool,
    existing_run: RunOutcome,
)
    requires
        command.configured_provider() is Some,
        route_actions(command, provider_run, provider_absent, existing_run).contains(
            RouteAction::RunExisting,
        ),
    ensures
        command.policy() == ProviderPolicy::Optional,
        provider_run == (RunOutcome::Failed { not_found: true }),
        provider_absent,
        route_actions(command, provider_run, provider_absent, existing_run).contains(
            RouteAction::RunProvider,
        ),
{
    lemma_route_outcome(command, provider_run, provider_absent, existing_run);
}

/// A provider whose program is not absolute is rejected before anything runs.
pub proof fn lemma_relative_provider_rejected(
    command: CompatibilityCommand,
    provider_run: RunOutcome,
    provider_absent: bool,
    existing_run: RunOutcome,
)
    requires
        command.configured_provider() is Some,
        !is_absolute_path(command.configured_provider()->0.program_path()),
    ensures
        route_actions(command, provider_run, provider_absent, existing_run) == seq![
            RouteAction::Fail(RouteFailure::ProviderNotAbsolute),
        ],
{
    reveal_with_fuel(actions_after, 1);
    assert(route_actions(command, provider_run, provider_absent, existing_run) =~= seq![
        RouteAction::Fail(RouteFailure::ProviderNotAbsolute),
    ]);
}

/// The required policy with no provider configured fails before anything runs.
pub proof fn lemma_required_unconfigured_rejected(
    command: CompatibilityCommand,
    provider_run: RunOutcome,
    provider_absent: bool,
    existing_run: RunOutcome,
)
    requires
        command.configured_provider() == None::<ExistingCommand>,
        command.policy() == ProviderPolicy::Required,
    ensures
        route_actions(command, provider_run, provider_absent, existing_run) == seq![
            RouteAction::Fail(RouteFailure::ProviderNotConfigured),
        ],
{
    reveal_with_fuel(actions_after, 1);
    assert(route_actions(command, provider_run, provider_absent, existing_run) =~= seq![
        RouteAction::Fail(RouteFailure::ProviderNotConfigured),
    ]);
}

/// At the beginning of an invocation with a provider configured, the provider runs exactly
/// when its program's first byte is `/`; any other program (empty, or starting with `~`, `.`,
/// or a directory name) is rejected as not absolute, and nothing runs.
pub proof fn lemma_begin_runs_provider_iff_leading_slash(command: CompatibilityCommand)
    requires
        command.configured_provider() is Some,
    ensures
        ({
            let program = command.configured_provider()->0.program_path();
            &&& (program.len() > 0 && program[0] == 0x2fu8) ==> route_step(
                command,
                RouteEvent::Begin,
            ) == RouteAction::RunProvider
            &&& (program.len() == 0 || program[0] != 0x2fu8) ==> route_step(
                command,
                RouteEvent::Begin,
            ) == RouteAction::Fail(RouteFailure::ProviderNotAbsolute)
        }),
{
    crate::command::lemma_absolute_iff_leading_slash(
        command.configured_provider()->0.program_path(),
    );
}

} // verus!
