//! The error kinds that the dispatch core itself can produce.

use vstd::prelude::*;

verus! {

/// Errors of the chord dispatch core.
///
/// The unverified shell around the library wraps windowing-protocol and file
/// failures in kinds of its own; only the kinds that the core logic can
/// produce are listed here.
#[derive(Clone, Copy, PartialEq, Eq, Structural, Debug)]
pub enum Error {
    /// A key name did not resolve through the symbol table, or a key symbol
    /// has no physical keycode in the live keyboard mapping.
    UnknownKey,
    /// A position specification did not hold a readable number.
    NumberParse,
    /// A position specification was not of the `x,y` form.
    InvalidPosition,
    /// The display list held no usable screen.
    NoScreenFound,
    /// No configuration location was provided in any way.
    NoConfig,
}

impl Error {
    /// The human-readable message for this error kind.
    pub fn message(&self) -> (r: String)
        ensures
            r@ == self.spec_message(),
    {
        match self {
            Error::UnknownKey => "Unknown key".to_owned(),
            Error::NumberParse => "ParseInt error".to_owned(),
            Error::InvalidPosition => "Invalid position specified".to_owned(),
            Error::NoScreenFound => "No screen found".to_owned(),
            Error::NoConfig => "Configuration not provided, run with --help".to_owned(),
        }
    }

    /// The message each kind carries.
    pub open spec fn spec_message(self) -> Seq<char> {
        match self {
            Error::UnknownKey => "Unknown key"@,
            Error::NumberParse => "ParseInt error"@,
            Error::InvalidPosition => "Invalid position specified"@,
            Error::NoScreenFound => "No screen found"@,
            Error::NoConfig => "Configuration not provided, run with --help"@,
        }
    }
}

} // verus!
