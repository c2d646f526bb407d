//! Types that both message directions share.

use vstd::prelude::*;

verus! {

pub type PlayerID = usize;

pub type TeamID = usize;

pub type ItemID = isize;

pub type LocationID = isize;

/// A protocol version as the wire carries it.
#[derive(Debug)]
pub struct APVersion {
    pub major: usize,
    pub minor: usize,
    pub build: usize,
    pub class: String,
}

impl APVersion {
    /// The three numbers and the class text.
    pub open spec fn spec_parts(self) -> (int, int, int, Seq<char>) {
        (self.major as int, self.minor as int, self.build as int, self.class@)
    }

    /// The version this client speaks.
    pub open spec fn spec_current() -> (int, int, int, Seq<char>) {
        (0, 6, 5, "Version"@)
    }
}

impl Default for APVersion {
    fn default() -> (v: Self)
        ensures
            v.spec_parts() == APVersion::spec_current(),
    {
        APVersion { major: 0, minor: 6, build: 5, class: "Version".to_string() }
    }
}

/// How much a hint matters to the player it is for.
#[derive(Debug, Clone, Copy, PartialEq, Eq, Structural)]
pub enum HintStatus {
    Unspecified,
    NoPriority,
    Avoid,
    Priority,
    Found,
}

impl HintStatus {
    pub open spec fn spec_code(self) -> int {
        match self {
            HintStatus::Unspecified => 0,
            HintStatus::NoPriority => 10,
            HintStatus::Avoid => 20,
            HintStatus::Priority => 30,
            HintStatus::Found => 40,
        }
    }

    /// The number the protocol gives this status.
    pub fn code(self) -> (c: u8)
        ensures
            c == self.spec_code(),
    {
        match self {
            HintStatus::Unspecified => 0,
            HintStatus::NoPriority => 10,
            HintStatus::Avoid => 20,
            HintStatus::Priority => 30,
            HintStatus::Found => 40,
        }
    }
}

/// What a client tells the server of its progress.
#[derive(Debug, Clone, Copy, PartialEq, Eq, Structural)]
pub enum ClientStatus {
    Unknown,
    Connected,
    Ready,
    Playing,
    Goal,
}

impl ClientStatus {
    pub open spec fn spec_code(self) -> int {
        match self {
            ClientStatus::Unknown => 0,
            ClientStatus::Connected => 5,
            ClientStatus::Ready => 10,
            ClientStatus::Playing => 20,
            ClientStatus::Goal => 30,
        }
    }

    /// The number the protocol gives this status.
    pub fn code(self) -> (c: u8)
        ensures
            c == self.spec_code(),
    {
        match self {
            ClientStatus::Unknown => 0,
            ClientStatus::Connected => 5,
            ClientStatus::Ready => 10,
            ClientStatus::Playing => 20,
            ClientStatus::Goal => 30,
        }
    }
}

} // verus!
