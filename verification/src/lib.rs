//! Direct execution of an existing command during incremental conversions, with a
//! compatibility route that may hand an invocation to a provider command instead.
//!
//! The library holds the data and the decisions: the command model, the route between an
//! existing command and a provider, and the rule that says when an absent provider may fall
//! back. Starting processes and inspecting the file system happen around it.

mod absence;
mod command;
mod outcome;
mod route;
pub mod route_laws;

pub use absence::{
    absence_shown, executable_is_absent, is_plain_directory, lemma_absence_needs_plain_ancestor,
    lemma_nothing_found_is_not_absent, AncestorInspection,
};
pub use command::{
    is_absolute_path, lemma_absolute_iff_leading_slash, ExistingCommand, PATH_SEPARATOR,
};
pub use outcome::{CommandOrigin, CommandResult, ProviderPolicy};
pub use route::{
    route_step, CompatibilityCommand, RouteAction, RouteEvent, RouteFailure, RunOutcome,
};
