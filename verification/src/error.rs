//! What can go wrong in this library.

use vstd::prelude::*;

verus! {

/// The failures that the library reports. Both are decided by the
/// configuration alone, so neither is worth retrying.
#[derive(Clone, Copy, Debug, PartialEq, Eq, Structural)]
pub enum Error {
    /// The path of the content database cannot be written as text, so the
    /// configuration cannot name it when it is flattened.
    MissingPath,
    /// The store is addressed in-process: there is no address that a server
    /// could listen on.
    MemAddr,
}

impl Error {
    /// The words that describe the failure.
    pub open spec fn message_text(self) -> Seq<char> {
        match self {
            Error::MissingPath => "No `path` set. Path is required."@,
            Error::MemAddr => "can not derive rpc_addr for mem addr"@,
        }
    }

    /// The description of the failure, for whoever reports it.
    pub fn message(&self) -> (r: &'static str)
        ensures
            r@ == self.message_text(),
    {
        match self {
            Error::MissingPath => "No `path` set. Path is required.",
            Error::MemAddr => "can not derive rpc_addr for mem addr",
        }
    }
}

} // verus!
