//! The error taxonomy of the library.

use vstd::prelude::*;

verus! {

/// Everything that can go wrong while parsing a line or driving a session.
#[derive(Clone, PartialEq, Eq, Debug)]
pub enum Error {
    /// A failure of the underlying byte transport, passed through.
    IOError,
    /// Bytes that should have decoded to text did not.
    EncodingError,
    /// A required token or terminator was not found before the line ended.
    UnexpectedEndOfInput,
    /// A size limit was exceeded; the payload says which.
    InputTooLong(String),
    /// The keep-alive timeout elapsed, or the remote end closed the
    /// connection.
    ConnectionReset,
}

/// The reason reported when the tags block exceeds its size limit.
pub open spec fn tags_too_long_text() -> Seq<char> {
    "The tags length exceeded 512 bytes."@
}

/// The reason reported when the rest of the line exceeds its size limit.
pub open spec fn message_too_long_text() -> Seq<char> {
    "The message length exceeded 512 bytes."@
}

impl Error {
    /// A human-readable description of the error.
    pub fn describe(&self) -> (r: String)
        ensures
            self matches Error::InputTooLong(m) ==> r@ == m@,
    {
        match self {
            Error::IOError => String::from_str("An I/O error occurred."),
            Error::EncodingError => String::from_str("The input was not valid text."),
            Error::UnexpectedEndOfInput => String::from_str(
                "Encountered unexpected end of input while reading message from server.",
            ),
            Error::InputTooLong(m) => m.clone(),
            Error::ConnectionReset => String::from_str(
                "The connection was reset by the remote host.",
            ),
        }
    }
}

} // verus!
