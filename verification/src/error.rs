//! The named failure conditions of the record layer.

use vstd::prelude::*;
use vstd::string::StringExecFns;

verus! {

/// An error arising while interpreting raw record memory.
#[derive(Debug, Clone)]
pub enum Error {
    /// Received an unexpected `NULL` back from an FFI function.
    NullPointer,
    /// Failed type conversion or casting; carries the name of the attempted
    /// target type.
    TypeConversion(&'static str),
    /// A file that was expected to exist does not.
    FileDoesNotExist(String),
}

impl Error {
    /// The human-readable description of this error.
    pub open spec fn message_spec(self) -> Seq<char> {
        match self {
            Error::NullPointer => "Received unexpected NULL from the FFI"@,
            Error::TypeConversion(msg) => "Type conversion error: "@ + msg@,
            Error::FileDoesNotExist(path) => "Path doesn't exist: "@ + path@,
        }
    }

    /// Renders the error as text.
    pub fn message(&self) -> (r: String)
        ensures
            r@ == self.message_spec(),
    {
        match self {
            Error::NullPointer => String::from_str("Received unexpected NULL from the FFI"),
            Error::TypeConversion(msg) => {
                let mut s = String::from_str("Type conversion error: ");
                s.append(msg);
                s
            },
            Error::FileDoesNotExist(path) => {
                let mut s = String::from_str("Path doesn't exist: ");
                s.append(path.as_str());
                s
            },
        }
    }
}

} // verus!
