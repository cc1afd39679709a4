//! The error taxonomy: definition-time errors, build-time errors, and the
//! one runtime-recoverable error of reverse resolution.

use vstd::prelude::*;

verus! {

/// Error returned when a route template string does not match the template
/// grammar: empty input, an unterminated `{`, or an empty parameter name.
#[derive(Debug, Clone, PartialEq, Eq)]
pub struct ParseRouteError {
    pub message: String,
}

impl ParseRouteError {
    /// A human-readable description of what was wrong with the template.
    pub fn message(&self) -> (r: &str)
        ensures
            r@ == self.message@,
    {
        self.message.as_str()
    }
}

/// A configuration fault detected while declaring route tables: a malformed
/// template string, or two entries of one table sharing an identifier.
/// Fatal at startup; no usable table is produced.
#[derive(Debug, Clone, PartialEq, Eq)]
pub enum DefinitionError {
    /// The given template string does not start with `/` or does not match
    /// the template grammar.
    MalformedTemplate(String),
    /// Two entries in the same table were declared with the given name.
    DuplicateIdentifier(String),
}

/// Mathematical model of a [`DefinitionError`].
pub enum DefinitionErrorModel {
    MalformedTemplate(Seq<char>),
    DuplicateIdentifier(Seq<char>),
}

impl View for DefinitionError {
    type V = DefinitionErrorModel;

    open spec fn view(&self) -> DefinitionErrorModel {
        match self {
            DefinitionError::MalformedTemplate(t) => DefinitionErrorModel::MalformedTemplate(t@),
            DefinitionError::DuplicateIdentifier(n) => DefinitionErrorModel::DuplicateIdentifier(
                n@,
            ),
        }
    }
}

/// Why building a dispatch table from a route table was aborted. Both
/// variants are fatal configuration errors: a partially usable dispatch
/// table is never produced.
#[derive(Debug, Clone, PartialEq, Eq)]
pub enum BuildError {
    /// The route table itself is ill-formed.
    Definition(DefinitionError),
    /// An entry names a customizer that the registry does not supply under
    /// the required kind.
    MissingCustomizer(String),
}

/// Mathematical model of a [`BuildError`].
pub enum BuildErrorModel {
    Definition(DefinitionErrorModel),
    MissingCustomizer(Seq<char>),
}

impl View for BuildError {
    type V = BuildErrorModel;

    open spec fn view(&self) -> BuildErrorModel {
        match self {
            BuildError::Definition(e) => BuildErrorModel::Definition(e@),
            BuildError::MissingCustomizer(n) => BuildErrorModel::MissingCustomizer(n@),
        }
    }
}

/// The only runtime-recoverable error: reverse resolution was handed too few
/// or too many parameter values for the chosen chain of entries.
#[derive(Debug, Clone, Copy, PartialEq, Eq, Structural)]
pub enum RouteResolverError {
    ParametersMismatch,
}

} // verus!
