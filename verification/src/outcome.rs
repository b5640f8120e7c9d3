use vstd::prelude::*;

verus! {

/// Whether an unavailable compatibility provider may use the existing command.
#[derive(Debug, Clone, Copy, PartialEq, Eq, Structural)]
pub enum ProviderPolicy {
    /// Use the existing command only when no provider is configured or its executable is absent.
    Optional,
    /// Return an error instead of using the existing command.
    Required,
}

/// The command that produced a result.
#[derive(Debug, Clone, Copy, PartialEq, Eq, Structural)]
pub enum CommandOrigin {
    Existing,
    Provider,
}

/// A command result paired with the command that produced it.
#[derive(Debug)]
pub struct CommandResult<T> {
    origin: CommandOrigin,
    value: T,
}

impl<T> CommandResult<T> {
    /// The command that produced the result.
    pub closed spec fn spec_origin(&self) -> CommandOrigin {
        self.origin
    }

    /// The underlying result.
    pub closed spec fn spec_value(&self) -> T {
        self.value
    }

    /// Pair a result with the command that produced it.
    pub fn new(origin: CommandOrigin, value: T) -> (result: Self)
        ensures
            result.spec_origin() == origin,
            result.spec_value() == value,
    {
        CommandResult { origin, value }
    }

    /// Return the command that produced the result.
    pub fn origin(&self) -> (origin: CommandOrigin)
        ensures
            origin == self.spec_origin(),
    {
        self.origin
    }

    /// Return the underlying command result.
    pub fn value(&self) -> (value: &T)
        ensures
            *value == self.spec_value(),
    {
        &self.value
    }

    /// Consume the routed result and return its underlying value.
    pub fn into_value(self) -> (value: T)
        ensures
            value == self.spec_value(),
    {
        self.value
    }
}

} // verus!
