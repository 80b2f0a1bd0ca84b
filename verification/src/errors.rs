use vstd::prelude::*;

verus! {

/// The class of a per-render failure.
#[derive(Clone, Copy, Debug, PartialEq, Eq, Structural)]
pub enum RenderErrorKind {
    /// No template of the requested name is registered.
    UnknownTemplate,
    /// An undefined value reached a position that required a concrete value.
    UndefinedValue,
    /// A bound function could not be invoked as the template call site asked.
    FunctionInvocation,
    /// The template text itself does not parse.
    Syntax,
    /// Any other evaluation failure.
    Evaluation,
}

/// A per-render failure, surfaced to the request handler; the render attempt
/// fails, the process continues.
#[derive(Debug)]
pub struct RenderError {
    pub kind: RenderErrorKind,
    pub message: String,
}

impl RenderError {
    /// A human-readable account of the failure.
    pub fn describe(&self) -> (r: String)
        ensures
            r@ == self.message@,
    {
        self.message.clone()
    }
}

/// A startup failure: one of the configured templates was rejected. Fatal at
/// startup, never raised per request.
#[derive(Debug)]
pub struct ConfigError {
    /// The name under which the rejected template was to be registered.
    pub template_name: String,
    pub message: String,
}

impl ConfigError {
    /// A human-readable account of the failure.
    pub fn describe(&self) -> (r: String)
        ensures
            r@ == self.message@,
    {
        self.message.clone()
    }
}

} // verus!
