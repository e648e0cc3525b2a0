use vstd::prelude::*;

use crate::text::concat;

verus! {

/// The errors of the program. The Windows and I/O variants hold the text of the
/// underlying system error.
#[derive(Debug, Clone)]
pub enum BreezeError {
    Config(String),
    Windows(String),
    Io(String),
    Service(String),
}

/// The text of an error: a prefix naming its kind, then the detail.
pub open spec fn message_spec(e: BreezeError) -> Seq<char> {
    match e {
        BreezeError::Config(s) => "configuration error: "@ + s@,
        BreezeError::Windows(s) => "Windows API error: "@ + s@,
        BreezeError::Io(s) => "IO error: "@ + s@,
        BreezeError::Service(s) => "service error: "@ + s@,
    }
}

impl BreezeError {
    /// The text of the error.
    pub fn message(&self) -> (r: String)
        ensures
            r@ == message_spec(*self),
    {
        match self {
            BreezeError::Config(s) => concat("configuration error: ", s.as_str()),
            BreezeError::Windows(s) => concat("Windows API error: ", s.as_str()),
            BreezeError::Io(s) => concat("IO error: ", s.as_str()),
            BreezeError::Service(s) => concat("service error: ", s.as_str()),
        }
    }
}

} // verus!
