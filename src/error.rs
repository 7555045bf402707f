//! Errors of node construction and of operators at run time.

use vstd::prelude::*;

verus! {

/// The class an error belongs to, which decides who must handle it.
#[derive(Clone, Copy, Debug, PartialEq, Eq, Structural)]
pub enum ErrorClass {
    /// The node's configuration names nothing that can be built.
    Config,
    /// The graph was built from the wrong kind of statement.
    Pipeline,
    /// An operator failed while processing.
    Operator,
}

/// An error, with the context that explains it.
#[derive(Debug)]
pub enum Error {
    /// No implementation is registered under this implementation-type key.
    UnknownOperator(String),
    /// The implementation needs a parameter of this name that is missing or malformed.
    InvalidConfig(String),
    /// A statement that is not an operator declaration was used as one.
    NonOperatorStmt,
    /// An operator could not process its input.
    Operator(String),
}

impl Error {
    pub open spec fn spec_class(&self) -> ErrorClass {
        match self {
            Error::UnknownOperator(_) | Error::InvalidConfig(_) => ErrorClass::Config,
            Error::NonOperatorStmt => ErrorClass::Pipeline,
            Error::Operator(_) => ErrorClass::Operator,
        }
    }

    /// The class of this error.
    pub fn class(&self) -> (r: ErrorClass)
        ensures
            r == self.spec_class(),
    {
        match self {
            Error::UnknownOperator(_) | Error::InvalidConfig(_) => ErrorClass::Config,
            Error::NonOperatorStmt => ErrorClass::Pipeline,
            Error::Operator(_) => ErrorClass::Operator,
        }
    }
}

} // verus!
