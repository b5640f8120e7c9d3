use vstd::prelude::*;

use crate::command::{is_absolute_path, ExistingCommand};
use crate::outcome::{CommandOrigin, ProviderPolicy};

verus! {

/// How one run of a command turned out.
#[derive(Debug, Clone, Copy, PartialEq, Eq, Structural)]
pub enum RunOutcome {
    /// The command ran and produced its result.
    Completed,
    /// The command could not be run; `not_found` when the error says that a file was not found.
    Failed { not_found: bool },
}

/// What happened since the route last decided.
#[derive(Debug, Clone, Copy, PartialEq, Eq, Structural)]
pub enum RouteEvent {
    /// The invocation starts.
    Begin,
    /// The provider command was run.
    ProviderRan(RunOutcome),
    /// The provider's executable path was inspected after it could not be found.
    ProviderInspected { absent: bool },
    /// The existing command was run.
    ExistingRan(RunOutcome),
}

/// Why an invocation ends without a result.
#[derive(Debug, Clone, Copy, PartialEq, Eq, Structural)]
pub enum RouteFailure {
    /// The policy requires a provider and none is configured (a not-found error).
    ProviderNotConfigured,
    /// The provider program is not an absolute path (an invalid-input error).
    ProviderNotAbsolute,
    /// The provider's own error is the invocation's error.
    ProviderError,
    /// The existing command's own error is the invocation's error.
    ExistingError,
}

/// What the route asks for next.
#[derive(Debug, Clone, Copy, PartialEq, Eq, Structural)]
pub enum RouteAction {
    /// Run the provider command.
    RunProvider,
    /// Inspect the provider's executable path and its ancestors to learn whether it is absent.
    InspectProvider,
    /// Run the existing command.
    RunExisting,
    /// The last command that ran produced the invocation's result.
    Finish(CommandOrigin),
    /// The invocation fails.
    Fail(RouteFailure),
}

/// A behavior-preserving route between an existing command and a compatible provider.
///
/// With no provider configured, the existing command runs unchanged. Provider programs must
/// use absolute paths. An optional provider falls back only when it cannot be started because
/// its executable is absent; once a provider starts, its result is authoritative for that
/// invocation. Required providers never fall back.
#[derive(Debug, Clone, PartialEq, Eq)]
pub struct CompatibilityCommand {
    existing: ExistingCommand,
    provider: Option<ExistingCommand>,
    provider_policy: ProviderPolicy,
}

impl CompatibilityCommand {
    /// The existing command.
    pub closed spec fn existing_command(&self) -> ExistingCommand {
        self.existing
    }

    /// The configured provider, if any.
    pub closed spec fn configured_provider(&self) -> Option<ExistingCommand> {
        self.provider
    }

    /// Whether the existing command may run when the provider is unavailable.
    pub closed spec fn policy(&self) -> ProviderPolicy {
        self.provider_policy
    }

    /// Construct a route that preserves the existing command when no provider is configured.
    pub fn new(existing: ExistingCommand) -> (command: Self)
        ensures
            command.existing_command() == existing,
            command.configured_provider() == None::<ExistingCommand>,
            command.policy() == ProviderPolicy::Optional,
    {
        CompatibilityCommand { existing, provider: None, provider_policy: ProviderPolicy::Optional }
    }

    /// Configure a provider command.
    pub fn with_provider(self, provider: ExistingCommand) -> (command: Self)
        ensures
            command.existing_command() == self.existing_command(),
            command.configured_provider() == Some(provider),
            command.policy() == self.policy(),
    {
        CompatibilityCommand { provider: Some(provider), ..self }
    }

    /// Set whether the existing command may run when the provider is unavailable.
    pub fn provider_policy(self, provider_policy: ProviderPolicy) -> (command: Self)
        ensures
            command.existing_command() == self.existing_command(),
            command.configured_provider() == self.configured_provider(),
            command.policy() == provider_policy,
    {
        CompatibilityCommand { provider_policy, ..self }
    }

    /// Return the existing command.
    pub fn existing(&self) -> (existing: &ExistingCommand)
        ensures
            *existing == self.existing_command(),
    {
        &self.existing
    }

    /// Return the configured provider, if any.
    pub fn provider(&self) -> (provider: Option<&ExistingCommand>)
        ensures
            match provider {
                Some(p) => self.configured_provider() == Some(*p),
                None => self.configured_provider() == None::<ExistingCommand>,
            },
    {
        match &self.provider {
            Some(p) => Some(p),
            None => None,
        }
    }

    /// Decide what the invocation does next, given what just happened.
    pub fn next_action(&self, event: RouteEvent) -> (action: RouteAction)
        ensures
            action == route_step(*self, event),
            event == RouteEvent::Begin && self.configured_provider() is Some ==> {
                let program = self.configured_provider()->0.program_path();
                &&& (program.len() > 0 && program[0] == 0x2fu8) ==> action
                    == RouteAction::RunProvider
                &&& (program.len() == 0 || program[0] != 0x2fu8) ==> action == RouteAction::Fail(
                    RouteFailure::ProviderNotAbsolute,
                )
            },
    {
        let optional = self.provider_policy == ProviderPolicy::Optional;
        match event {
            RouteEvent::Begin => match &self.provider {
                None => {
                    if optional {
                        RouteAction::RunExisting
                    } else {
                        RouteAction::Fail(RouteFailure::ProviderNotConfigured)
                    }
                },
                Some(provider) => {
                    if provider.program_is_absolute() {
                        RouteAction::RunProvider
                    } else {
                        RouteAction::Fail(RouteFailure::ProviderNotAbsolute)
                    }
                },
            },
            RouteEvent::ProviderRan(RunOutcome::Completed) => RouteAction::Finish(
                CommandOrigin::Provider,
            ),
            RouteEvent::ProviderRan(RunOutcome::Failed { not_found }) => {
                if not_found && optional {
                    RouteAction::InspectProvider
                } else {
                    RouteAction::Fail(RouteFailure::ProviderError)
                }
            },
            RouteEvent::ProviderInspected { absent } => {
                if absent && optional {
                    RouteAction::RunExisting
                } else {
                    RouteAction::Fail(RouteFailure::ProviderError)
                }
            },
            RouteEvent::ExistingRan(RunOutcome::Completed) => RouteAction::Finish(
                CommandOrigin::Existing,
            ),
            RouteEvent::ExistingRan(RunOutcome::Failed { .. }) => RouteAction::Fail(
                RouteFailure::ExistingError,
            ),
        }
    }
}

/// One decision of the route: the action that follows an event.
pub open spec fn route_step(command: CompatibilityCommand, event: RouteEvent) -> RouteAction {
    let optional = command.policy() == ProviderPolicy::Optional;
    match event {
        RouteEvent::Begin => match command.configured_provider() {
            None => if optional {
                RouteAction::RunExisting
            } else {
                RouteAction::Fail(RouteFailure::ProviderNotConfigured)
            },
            Some(provider) => if is_absolute_path(provider.program_path()) {
                RouteAction::RunProvider
            } else {
                RouteAction::Fail(RouteFailure::ProviderNotAbsolute)
            },
        },
        RouteEvent::ProviderRan(RunOutcome::Completed) => RouteAction::Finish(
            CommandOrigin::Provider,
        ),
        RouteEvent::ProviderRan(RunOutcome::Failed { not_found }) => if not_found && optional {
            RouteAction::InspectProvider
        } else {
            RouteAction::Fail(RouteFailure::ProviderError)
        },
        RouteEvent::ProviderInspected { absent } => if absent && optional {
            RouteAction::RunExisting
        } else {
            RouteAction::Fail(RouteFailure::ProviderError)
        },
        RouteEvent::ExistingRan(RunOutcome::Completed) => RouteAction::Finish(
            CommandOrigin::Existing,
        ),
        RouteEvent::ExistingRan(RunOutcome::Failed { .. }) => RouteAction::Fail(
            RouteFailure::ExistingError,
        ),
    }
}

} // verus!
