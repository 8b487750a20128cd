//! The errors that parsing arguments or running a command can produce.

use vstd::prelude::*;

verus! {

/// Errors produced while parsing arguments or running a command.
#[derive(Clone, Debug)]
pub enum Error {
    /// Invalid arguments or option values.
    Usage(String),
    /// Unknown or unsupported structure.
    Structure(String),
    /// Structure placement calculation failed.
    Placement(String),
    /// World generation scanning failed.
    Worldgen(String),
    /// Loot table replay failed.
    Loot(String),
    /// Embedded data parsing failed.
    Data(String),
}

impl Error {
    /// The text that the error carries.
    pub open spec fn text(&self) -> Seq<char> {
        match self {
            Error::Usage(m) => m@,
            Error::Structure(m) => m@,
            Error::Placement(m) => m@,
            Error::Worldgen(m) => m@,
            Error::Loot(m) => m@,
            Error::Data(m) => m@,
        }
    }

    /// The error's message, as it is shown to the user.
    pub fn to_string(&self) -> (message: String)
        ensures
            message@ == self.text(),
    {
        match self {
            Error::Usage(m) => m.clone(),
            Error::Structure(m) => m.clone(),
            Error::Placement(m) => m.clone(),
            Error::Worldgen(m) => m.clone(),
            Error::Loot(m) => m.clone(),
            Error::Data(m) => m.clone(),
        }
    }
}

/// Whether `result` is a usage error that carries `message`.
pub open spec fn is_usage_error<T>(result: Result<T, Error>, message: Seq<char>) -> bool {
    result matches Err(Error::Usage(m)) && m@ == message
}

/// Whether `result` is a placement error that carries `message`.
pub open spec fn is_placement_error<T>(result: Result<T, Error>, message: Seq<char>) -> bool {
    result matches Err(Error::Placement(m)) && m@ == message
}

/// Whether `result` is a structure error that carries `message`.
pub open spec fn is_structure_error<T>(result: Result<T, Error>, message: Seq<char>) -> bool {
    result matches Err(Error::Structure(m)) && m@ == message
}

} // verus!
