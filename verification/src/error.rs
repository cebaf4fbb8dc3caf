//! Recoverable errors raised by the protocol core.

use vstd::prelude::*;

verus! {

/// The error taxonomy: wrong type or unsupported operation, semantically
/// invalid value, or a plain runtime exception.
#[derive(Debug)]
pub enum ErrorKind {
    TypeError,
    ValueError,
    Exception,
}

/// An error carrying its category and the message surfaced to the host.
#[derive(Debug)]
pub struct PyError {
    pub kind: ErrorKind,
    pub msg: String,
}

/// A type error with the given message.
pub fn type_error(msg: &str) -> (e: PyError)
    ensures
        e.kind is TypeError,
        e.msg@ == msg@,
{
    PyError { kind: ErrorKind::TypeError, msg: msg.to_owned() }
}

/// A value error with the given message.
pub fn value_error(msg: &str) -> (e: PyError)
    ensures
        e.kind is ValueError,
        e.msg@ == msg@,
{
    PyError { kind: ErrorKind::ValueError, msg: msg.to_owned() }
}

/// A plain exception with the given message.
pub fn exception(msg: &str) -> (e: PyError)
    ensures
        e.kind is Exception,
        e.msg@ == msg@,
{
    PyError { kind: ErrorKind::Exception, msg: msg.to_owned() }
}

} // verus!
