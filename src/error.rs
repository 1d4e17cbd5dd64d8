//! The reasons a function cannot be rewritten.

use vstd::prelude::*;

verus! {

/// Why a function cannot be rewritten.
#[derive(Clone, Copy, Debug, PartialEq, Eq)]
pub enum SignatureIssue {
    /// The function is declared `async`.
    Async,
    /// The function declares generic parameters or a `where` clause.
    Generic,
    /// The function declares a return type.
    ReturnType,
    /// The function declares parameters.
    Inputs,
}

/// What stops the rewriting of an annotated function.
#[derive(Clone, Copy, Debug, PartialEq, Eq)]
pub enum TransformError {
    /// No recognized shape of attribute arguments fits the ones given.
    MalformedArguments,
    /// The function's signature cannot be rewritten.
    UnsupportedSignature(SignatureIssue),
}

} // verus!
