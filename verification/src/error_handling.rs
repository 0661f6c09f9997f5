//! Failures of input and output, and how context is attached to them.

use std::io::ErrorKind;
use vstd::prelude::*;
use vstd::string::*;

verus! {

/// The category of an input or output failure, as the standard library
/// classifies it. Its variants are carried through untouched.
#[verifier::external_type_specification]
#[verifier::external_body]
pub struct ExErrorKind(std::io::ErrorKind);

/// A failed input or output operation: its category and a readable message.
#[derive(Debug, PartialEq, Eq)]
pub struct IoFailure {
    pub kind: ErrorKind,
    pub message: String,
}

/// The mathematical content of an [`IoFailure`].
pub struct IoFailureView {
    pub kind: ErrorKind,
    pub message: Seq<char>,
}

impl View for IoFailure {
    type V = IoFailureView;

    open spec fn view(&self) -> IoFailureView {
        IoFailureView { kind: self.kind, message: self.message@ }
    }
}

impl Clone for IoFailure {
    fn clone(&self) -> (out: Self)
        ensures
            out@ == self@,
    {
        IoFailure { kind: self.kind, message: self.message.clone() }
    }
}

/// Passes a success through and replaces the message of a failure by
/// `error_message`, keeping the failure's category.
pub fn return_when_error<T>(result: Result<T, IoFailure>, error_message: &str) -> (out: Result<
    T,
    IoFailure,
>)
    ensures
        match result {
            Ok(value) => out == Ok::<T, IoFailure>(value),
            Err(failure) => out is Err && out->Err_0@ == (IoFailureView {
                kind: failure.kind,
                message: error_message@,
            }),
        },
{
    match result {
        Ok(value) => Ok(value),
        Err(failure) => Err(IoFailure { kind: failure.kind, message: String::from_str(error_message) }),
    }
}

} // verus!
