//! Errors of binary installation.

use vstd::prelude::*;

verus! {

/// Errors that can potentially occur while installing binaries.
#[derive(Debug)]
pub enum Error {
    /// An error related to an archive that we downloaded.
    Archive {
        /// Error message.
        message: String,
    },
    /// Error related to some HTTP request.
    Http {
        /// Error message.
        message: String,
    },
}

/// The description `error_type` gives of an archive error.
pub open spec fn archive_error_type() -> Seq<char> {
    "There was an error related to an archive file. Details:\n\n"@
}

/// The description `error_type` gives of an HTTP error.
pub open spec fn http_error_type() -> Seq<char> {
    "There wasn an HTTP error. Details:\n\n"@
}

impl Error {
    /// The message this error carries.
    pub open spec fn message_of(&self) -> Seq<char> {
        match self {
            Error::Archive { message } => message@,
            Error::Http { message } => message@,
        }
    }

    /// Construct an archive error.
    pub fn archive(message: &str) -> (e: Self)
        ensures
            e is Archive,
            e.message_of() == message@,
    {
        Error::Archive { message: String::from_str(message) }
    }

    /// Construct an http error.
    pub fn http(message: &str) -> (e: Self)
        ensures
            e is Http,
            e.message_of() == message@,
    {
        Error::Http { message: String::from_str(message) }
    }

    /// Get a string description of this error's type.
    pub fn error_type(&self) -> (r: String)
        ensures
            r@ == (match self {
                Error::Archive { .. } => archive_error_type(),
                Error::Http { .. } => http_error_type(),
            }),
    {
        match self {
            Error::Archive { .. } => String::from_str(
                "There was an error related to an archive file. Details:\n\n",
            ),
            Error::Http { .. } => String::from_str("There wasn an HTTP error. Details:\n\n"),
        }
    }

    /// The message this error carries (what it displays).
    pub fn message(&self) -> (r: String)
        ensures
            r@ == self.message_of(),
    {
        match self {
            Error::Archive { message } => message.clone(),
            Error::Http { message } => message.clone(),
        }
    }
}

} // verus!
