//! Error taxonomy of the foreign-boundary bridge.

use vstd::prelude::*;

verus! {

/// Mathematical model of an [`Error`], with byte messages abstracted to
/// sequences.
pub enum ErrorModel {
    RuntimeError(Seq<u8>),
    RecursiveMutCallback,
    CallbackDestructed,
    CallbackPanic(Seq<u8>),
    ConversionError,
    CallbackError(Box<ErrorModel>),
}

/// Errors surfaced by boundary crossings.
///
/// An application error raised by a callback is a `RuntimeError`.
/// `RecursiveMutCallback` reports a violated exclusivity guard.
/// `CallbackDestructed` reports a call to a function whose scope has ended.
/// `CallbackPanic` carries the payload of a host panic captured at the
/// boundary. `ConversionError` reports a value that could not be marshaled,
/// such as an expired reference. `CallbackError` wraps the cause of any
/// failure that was signaled through a protected call.
#[derive(Debug)]
pub enum Error {
    RuntimeError(Vec<u8>),
    RecursiveMutCallback,
    CallbackDestructed,
    CallbackPanic(Vec<u8>),
    ConversionError,
    CallbackError(Box<Error>),
}

/// The model of an error value.
pub open spec fn error_model(e: Error) -> ErrorModel
    decreases e,
{
    match e {
        Error::RuntimeError(m) => ErrorModel::RuntimeError(m@),
        Error::RecursiveMutCallback => ErrorModel::RecursiveMutCallback,
        Error::CallbackDestructed => ErrorModel::CallbackDestructed,
        Error::CallbackPanic(m) => ErrorModel::CallbackPanic(m@),
        Error::ConversionError => ErrorModel::ConversionError,
        Error::CallbackError(c) => ErrorModel::CallbackError(Box::new(error_model(*c))),
    }
}

impl View for Error {
    type V = ErrorModel;

    open spec fn view(&self) -> ErrorModel {
        error_model(*self)
    }
}

impl DeepView for Error {
    type V = ErrorModel;

    open spec fn deep_view(&self) -> ErrorModel {
        error_model(*self)
    }
}

/// Compares two byte messages.
pub fn bytes_eq(a: &Vec<u8>, b: &Vec<u8>) -> (r: bool)
    ensures
        r == (a@ == b@),
{
    if a.len() != b.len() {
        return false;
    }
    let mut i: usize = 0;
    while i < a.len()
        invariant
            i <= a@.len(),
            a@.len() == b@.len(),
            forall|j: int| 0 <= j < i ==> a@[j] == b@[j],
        decreases a@.len() - i,
    {
        if a[i] != b[i] {
            return false;
        }
        i = i + 1;
    }
    proof {
        assert(a@ =~= b@);
    }
    true
}

/// Compares two error values.
pub fn error_eq(a: &Error, b: &Error) -> (r: bool)
    ensures
        r == (a@ == b@),
    decreases a,
{
    match (a, b) {
        (Error::RuntimeError(m1), Error::RuntimeError(m2)) => bytes_eq(m1, m2),
        (Error::RecursiveMutCallback, Error::RecursiveMutCallback) => true,
        (Error::CallbackDestructed, Error::CallbackDestructed) => true,
        (Error::CallbackPanic(m1), Error::CallbackPanic(m2)) => bytes_eq(m1, m2),
        (Error::ConversionError, Error::ConversionError) => true,
        (Error::CallbackError(c1), Error::CallbackError(c2)) => error_eq(c1, c2),
        _ => false,
    }
}

/// Copies a byte message.
pub fn clone_bytes(v: &Vec<u8>) -> (r: Vec<u8>)
    ensures
        r@ == v@,
{
    let mut out: Vec<u8> = Vec::new();
    let mut i: usize = 0;
    while i < v.len()
        invariant
            i <= v@.len(),
            out@ == v@.subrange(0, i as int),
        decreases v@.len() - i,
    {
        out.push(v[i]);
        i = i + 1;
    }
    assert(out@ == v@);
    out
}

/// Copies an error value.
pub fn clone_error(e: &Error) -> (r: Error)
    ensures
        r@ == e@,
    decreases e,
{
    match e {
        Error::RuntimeError(m) => Error::RuntimeError(clone_bytes(m)),
        Error::RecursiveMutCallback => Error::RecursiveMutCallback,
        Error::CallbackDestructed => Error::CallbackDestructed,
        Error::CallbackPanic(m) => Error::CallbackPanic(clone_bytes(m)),
        Error::ConversionError => Error::ConversionError,
        Error::CallbackError(c) => Error::CallbackError(Box::new(clone_error(c))),
    }
}

} // verus!
