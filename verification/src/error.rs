//! The failures that end a collection.

use vstd::prelude::*;
use vstd::string::*;

verus! {

/// Why a collection failed.  Each failure carries the text that the failing
/// facility gave as its reason.
#[derive(Clone, Debug, PartialEq, Eq)]
pub enum CollectorError {
    /// The statistics subsystem could not be set up or refreshed, or reported
    /// totals from which no usage fraction can be formed.
    PlatformQueryFailure(String),
    /// The host name, the current user or the home directory could not be
    /// determined.
    IOFailure(String),
    /// The kernel's system-information facility, the source of the uptime,
    /// could not be queried.
    KernelFacilityFailure(String),
}

/// The mathematical value of a [`CollectorError`]: its kind, and its reason
/// as a sequence of characters.
pub enum Failure {
    PlatformQueryFailure(Seq<char>),
    IOFailure(Seq<char>),
    KernelFacilityFailure(Seq<char>),
}

impl Failure {
    /// The reason that the failing facility gave.
    pub open spec fn detail(self) -> Seq<char> {
        match self {
            Failure::PlatformQueryFailure(detail) => detail,
            Failure::IOFailure(detail) => detail,
            Failure::KernelFacilityFailure(detail) => detail,
        }
    }

    /// The words that introduce the reason in a message.
    pub open spec fn prefix(self) -> Seq<char> {
        match self {
            Failure::PlatformQueryFailure(_) => "SysInfo Error: "@,
            Failure::IOFailure(_) => "IO Error: "@,
            Failure::KernelFacilityFailure(_) => "Nix Error: "@,
        }
    }

    /// The failure as one line of text: its prefix, then its reason.
    pub open spec fn message(self) -> Seq<char> {
        self.prefix() + self.detail()
    }
}

impl View for CollectorError {
    type V = Failure;

    open spec fn view(&self) -> Failure {
        match self {
            CollectorError::PlatformQueryFailure(detail) => Failure::PlatformQueryFailure(detail@),
            CollectorError::IOFailure(detail) => Failure::IOFailure(detail@),
            CollectorError::KernelFacilityFailure(detail) => Failure::KernelFacilityFailure(
                detail@,
            ),
        }
    }
}

impl CollectorError {
    /// The failure as one line of text, such as `IO Error: no such variable`.
    pub fn message(&self) -> (text: String)
        ensures
            text@ == self@.message(),
    {
        match self {
            CollectorError::PlatformQueryFailure(detail) => {
                String::from_str("SysInfo Error: ").concat(detail.as_str())
            },
            CollectorError::IOFailure(detail) => {
                String::from_str("IO Error: ").concat(detail.as_str())
            },
            CollectorError::KernelFacilityFailure(detail) => {
                String::from_str("Nix Error: ").concat(detail.as_str())
            },
        }
    }
}

} // verus!
