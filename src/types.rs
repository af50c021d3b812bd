use vstd::prelude::*;

verus! {

/// The distinct ways in which building or decoding a chunk can fail.
#[derive(Debug, Clone, Copy, PartialEq, Eq, Structural)]
pub enum ErrorKind {
    /// A type-code byte at this index is not an ASCII letter.
    TypeByteOutOfRange(usize),
    /// A type-code string is not exactly four bytes long.
    TypeLength,
    /// A buffer is shorter than the fixed fields of a chunk.
    Incomplete,
    /// A buffer's size disagrees with the length field it declares.
    InvalidLength,
    /// The stored checksum differs from the one computed over type and payload.
    ChecksumMismatch,
    /// A payload read as text is not well-formed UTF-8.
    InvalidUtf8,
}

/// A validation failure: what went wrong, and a human-readable cause.
#[derive(Debug)]
pub struct Error {
    pub kind: ErrorKind,
    pub message: String,
}

pub type Result<T> = core::result::Result<T, Error>;

/// Builds an error of the given kind that carries `msg` as its message.
pub fn error_from(kind: ErrorKind, msg: &str) -> (e: Error)
    ensures
        e.kind == kind,
        e.message@ == msg@,
{
    Error { kind, message: String::from_str(msg) }
}

/// `Ok(())` when `assertion` holds, else an error of the given kind.
pub fn assert_or_err(assertion: bool, kind: ErrorKind, err_msg: &str) -> (r: Result<()>)
    ensures
        r is Ok <==> assertion,
        r matches Err(e) ==> e.kind == kind && e.message@ == err_msg@,
{
    if assertion {
        Ok(())
    } else {
        Err(error_from(kind, err_msg))
    }
}

} // verus!
