//! Why a sink could not be made, or a write call could not go ahead.

use vstd::prelude::*;

verus! {

/// The ways in which the sink fails. Each holds the operating system's error
/// where there is one.
#[derive(Debug)]
pub enum Error {
    /// The file at the sink's path could not be opened or created.
    Open(std::io::Error),
    /// The open file could not be synchronized to storage before a rotation.
    Sync(std::io::Error),
    /// The action for the hangup signal could not be registered.
    Register(std::io::Error),
    /// The sink holds no open file: a rotation closed the old one and failed
    /// to open the new one. Such a sink stays closed until it is dropped.
    Closed,
}

impl Error {
    /// The operating system's error, for a failure that holds one.
    pub fn into_source(self) -> (source: Option<std::io::Error>)
        ensures
            source == match self {
                Error::Open(e) => Some(e),
                Error::Sync(e) => Some(e),
                Error::Register(e) => Some(e),
                Error::Closed => None,
            },
    {
        match self {
            Error::Open(e) => Some(e),
            Error::Sync(e) => Some(e),
            Error::Register(e) => Some(e),
            Error::Closed => None,
        }
    }
}

} // verus!
