//! The failures a call can end in.

use vstd::prelude::*;

verus! {

/// The four classes of failure.
#[derive(Clone, Copy, Debug, PartialEq, Eq, Structural)]
pub enum ErrorKind {
    /// The request did not come back with a successful response.
    Transport,
    /// A response arrived but its body could not be used.
    Decode,
    /// A search pattern did not compile.
    PatternCompile,
    /// No access token was found in any candidate script.
    Unresolved,
}

/// What a decode failure says of a body that is JSON of the wrong shape.
pub const WRONG_SHAPE: &'static str = "response body does not have the expected shape";

/// Why a call failed. Every failure ends the call that met it.
#[derive(Debug)]
pub enum Error {
    /// The HTTP layer reported a failure, a status outside 2xx included.
    /// Holds the layer's own description.
    Ureq(String),
    /// The body could not be read as text, or is not JSON of the expected
    /// shape. Holds a description.
    StdIo(String),
    /// A byte body broke off before its end. Holds the URL asked for.
    InvalidData(String),
    /// A search pattern did not compile. Holds the compiler's description.
    Regex(String),
    /// Token discovery ran out of candidates.
    Unknown,
}

impl Error {
    /// The class this failure belongs to.
    pub open spec fn class(self) -> ErrorKind {
        match self {
            Error::Ureq(_) => ErrorKind::Transport,
            Error::StdIo(_) => ErrorKind::Decode,
            Error::InvalidData(_) => ErrorKind::Decode,
            Error::Regex(_) => ErrorKind::PatternCompile,
            Error::Unknown => ErrorKind::Unresolved,
        }
    }

    /// The text shown for this failure.
    pub open spec fn message(self) -> Seq<char> {
        match self {
            Error::Ureq(_) => "ureq error"@,
            Error::StdIo(_) => "std::io error"@,
            Error::InvalidData(url) => "failed to get bytes "@ + url@,
            Error::Regex(_) => "regex error"@,
            Error::Unknown => "unknown error"@,
        }
    }

    /// This is the failure reported for a body that is JSON of the wrong
    /// shape.
    pub open spec fn is_wrong_shape(self) -> bool {
        self matches Error::StdIo(why) && why@ == WRONG_SHAPE@
    }

    /// The failure reported for a body that is JSON of the wrong shape.
    pub fn wrong_shape() -> (e: Error)
        ensures
            e.is_wrong_shape(),
    {
        Error::StdIo(WRONG_SHAPE.to_owned())
    }

    /// The class this failure belongs to.
    pub fn kind(&self) -> (k: ErrorKind)
        ensures
            k == self.class(),
    {
        match self {
            Error::Ureq(_) => ErrorKind::Transport,
            Error::StdIo(_) => ErrorKind::Decode,
            Error::InvalidData(_) => ErrorKind::Decode,
            Error::Regex(_) => ErrorKind::PatternCompile,
            Error::Unknown => ErrorKind::Unresolved,
        }
    }

    /// The text shown for this failure.
    pub fn to_string(&self) -> (s: String)
        ensures
            s@ == self.message(),
    {
        match self {
            Error::Ureq(_) => "ureq error".to_owned(),
            Error::StdIo(_) => "std::io error".to_owned(),
            Error::InvalidData(url) => {
                let mut s = "failed to get bytes ".to_owned();
                s.append(url.as_str());
                s
            },
            Error::Regex(_) => "regex error".to_owned(),
            Error::Unknown => "unknown error".to_owned(),
        }
    }
}

} // verus!
