//! Why a configuration is refused.
use crate::text;
use vstd::prelude::*;

verus! {

/// A number in single precision (IEEE 754 binary32), held as its bit pattern.
#[derive(Debug, Clone, Copy, PartialEq, Eq, Structural)]
pub struct Single {
    pub bits: u32,
}

/// A number in double precision (IEEE 754 binary64), held as its bit pattern.
#[derive(Debug, Clone, Copy, PartialEq, Eq, Structural)]
pub struct Double {
    pub bits: u64,
}

/// Why a configuration is refused.
#[derive(Debug, PartialEq, Eq)]
pub enum ConfigError {
    /// A value breaks a rule; the text says which.
    Invalid(String),
    /// A named number is not between zero and one.
    NotInUnitInterval { name: String, value: Single },
    /// A value that is needed could not be had; the text says which.
    Unresolved(String),
}

/// The view of a [`ConfigError`].
pub enum ConfigErrorView {
    Invalid(Seq<char>),
    NotInUnitInterval { name: Seq<char>, value: Single },
    Unresolved(Seq<char>),
}

impl View for ConfigError {
    type V = ConfigErrorView;

    open spec fn view(&self) -> ConfigErrorView {
        match self {
            ConfigError::Invalid(message) => ConfigErrorView::Invalid(message@),
            ConfigError::NotInUnitInterval { name, value } => ConfigErrorView::NotInUnitInterval {
                name: name@,
                value: *value,
            },
            ConfigError::Unresolved(message) => ConfigErrorView::Unresolved(message@),
        }
    }
}

/// The view of a result that carries nothing.
pub open spec fn unit_result(result: Result<(), ConfigError>) -> Result<(), ConfigErrorView> {
    match result {
        Ok(_) => Ok(()),
        Err(error) => Err(error@),
    }
}

/// An invalid value.
pub(crate) fn invalid(message: String) -> (error: ConfigError)
    ensures
        error@ == ConfigErrorView::Invalid(message@),
{
    ConfigError::Invalid(message)
}

/// `before`, the quoted text, and `after`.
pub(crate) fn quoted(before: &str, name: &str, after: &str) -> (message: String)
    ensures
        message@ == before@ + name@ + after@,
{
    let start = text::concat(before, name);
    text::concat(start.as_str(), after)
}

} // verus!
