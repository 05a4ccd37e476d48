//! Codes that a stream server keeps about its clients, and the check it makes
//! on an incoming command code.
pub use crate::types::CommandError;
use vstd::prelude::*;

verus! {

/// A command code as it arrives from a client, before it is known to be valid.
#[derive(Debug, Clone, Copy, PartialEq, Eq, Structural)]
pub struct Command(pub u64);

impl Command {
    /// Whether the code names a command: start (1) through bookmark (6).
    pub fn is_a_command(&self) -> (r: bool)
        ensures
            r <==> exists|c: crate::types::Command| c.spec_code() == self.0,
    {
        proof {
            if 1 <= self.0 <= 6 {
                let c = if self.0 == 1 {
                    crate::types::Command::CmdStart
                } else if self.0 == 2 {
                    crate::types::Command::CmdStop
                } else if self.0 == 3 {
                    crate::types::Command::CmdHeader
                } else if self.0 == 4 {
                    crate::types::Command::CmdStartBookmark
                } else if self.0 == 5 {
                    crate::types::Command::CmdEntry
                } else {
                    crate::types::Command::CmdBookmark
                };
                assert(c.spec_code() == self.0);
            }
        }
        1 <= self.0 && self.0 <= 6
    }
}

/// Status of a client as the server sees it.
#[derive(Debug, Clone, Copy, PartialEq, Eq, Structural)]
pub enum ClientStatus {
    /// Catching up with the stream (code 1).
    CsSyncing,
    /// Up to date (code 2).
    CsSynced,
    /// Stopped (code 3).
    CsStopped,
    /// Disconnected for good (code 0xff).
    CsKilled,
}

impl ClientStatus {
    pub open spec fn spec_code(self) -> u64 {
        match self {
            ClientStatus::CsSyncing => 1,
            ClientStatus::CsSynced => 2,
            ClientStatus::CsStopped => 3,
            ClientStatus::CsKilled => 0xff,
        }
    }

    /// The code of this status.
    pub fn code(&self) -> (r: u64)
        ensures
            r == self.spec_code(),
    {
        match self {
            ClientStatus::CsSyncing => 1,
            ClientStatus::CsSynced => 2,
            ClientStatus::CsStopped => 3,
            ClientStatus::CsKilled => 0xff,
        }
    }
}

/// State of an atomic operation on the server's stream.
#[derive(Debug, Clone, Copy, PartialEq, Eq, Structural)]
pub enum AOStatus {
    /// No operation (code 1).
    AoNone,
    /// Started (code 2).
    AoStarted,
    /// Being committed (code 3).
    AoCommitting,
    /// Being rolled back (code 0xff).
    AoRollbacking,
}

impl AOStatus {
    pub open spec fn spec_code(self) -> u64 {
        match self {
            AOStatus::AoNone => 1,
            AOStatus::AoStarted => 2,
            AOStatus::AoCommitting => 3,
            AOStatus::AoRollbacking => 0xff,
        }
    }

    /// The code of this status.
    pub fn code(&self) -> (r: u64)
        ensures
            r == self.spec_code(),
    {
        match self {
            AOStatus::AoNone => 1,
            AOStatus::AoStarted => 2,
            AOStatus::AoCommitting => 3,
            AOStatus::AoRollbacking => 0xff,
        }
    }
}

} // verus!
