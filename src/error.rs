use vstd::prelude::*;

verus! {

/// The two ways an operation fails.
#[derive(Debug, Clone, Copy, PartialEq, Eq, Structural)]
pub enum ErrorKind {
    /// The token resolves to no registered token.
    InvalidToken,
    /// The stored data could not be read or written as asked.
    Storage,
}

/// A failed operation: what went wrong, and a message for the caller.
#[derive(Debug)]
pub struct Error {
    pub kind: ErrorKind,
    pub s: String,
}

impl Error {
    /// The error for a token that resolves to nothing.
    pub fn invalid_token() -> (r: Error)
        ensures
            r.kind == ErrorKind::InvalidToken,
            r.s@ == "invalid token"@,
    {
        Error { kind: ErrorKind::InvalidToken, s: "invalid token".to_owned() }
    }

    /// A storage error with the given message.
    pub fn storage(s: String) -> (r: Error)
        ensures
            r.kind == ErrorKind::Storage,
            r.s@ == s@,
    {
        Error { kind: ErrorKind::Storage, s }
    }

    /// The message handed back to the caller.
    pub fn message(&self) -> (r: String)
        ensures
            r@ == self.s@,
    {
        self.s.clone()
    }
}

} // verus!
