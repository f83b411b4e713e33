//! Status codes of the daemon's REST API (not HTTP status codes).

use vstd::prelude::*;

verus! {

/// The status of a resource or of an operation. Codes from 100 to 113 mean that
/// work is still going on; 200, 400 and 401 are final.
#[derive(Clone, Copy, Debug, PartialEq, Eq, Structural)]
pub enum ResourceStatus {
    OperationCreated,
    Started,
    Stopped,
    Running,
    Canceling,
    Pending,
    Starting,
    Stopping,
    Aborting,
    Freezing,
    Frozen,
    Thawed,
    Error,
    Ready,
    Success,
    Failure,
    Canceled,
}

/// A status code that the enumeration does not know.
#[derive(Clone, Copy, Debug, PartialEq, Eq, Structural)]
pub struct UnknownStatus {
    pub code: u64,
}

/// The status that a code on the wire stands for.
pub open spec fn status_of_code(code: u64) -> Option<ResourceStatus> {
    if code == 100 {
        Some(ResourceStatus::OperationCreated)
    } else if code == 101 {
        Some(ResourceStatus::Started)
    } else if code == 102 {
        Some(ResourceStatus::Stopped)
    } else if code == 103 {
        Some(ResourceStatus::Running)
    } else if code == 104 {
        Some(ResourceStatus::Canceling)
    } else if code == 105 {
        Some(ResourceStatus::Pending)
    } else if code == 106 {
        Some(ResourceStatus::Starting)
    } else if code == 107 {
        Some(ResourceStatus::Stopping)
    } else if code == 108 {
        Some(ResourceStatus::Aborting)
    } else if code == 109 {
        Some(ResourceStatus::Freezing)
    } else if code == 110 {
        Some(ResourceStatus::Frozen)
    } else if code == 111 {
        Some(ResourceStatus::Thawed)
    } else if code == 112 {
        Some(ResourceStatus::Error)
    } else if code == 113 {
        Some(ResourceStatus::Ready)
    } else if code == 200 {
        Some(ResourceStatus::Success)
    } else if code == 400 {
        Some(ResourceStatus::Failure)
    } else if code == 401 {
        Some(ResourceStatus::Canceled)
    } else {
        None
    }
}

impl ResourceStatus {
    /// The code that stands for this status on the wire.
    pub open spec fn wire_code(self) -> u16 {
        match self {
            ResourceStatus::OperationCreated => 100,
            ResourceStatus::Started => 101,
            ResourceStatus::Stopped => 102,
            ResourceStatus::Running => 103,
            ResourceStatus::Canceling => 104,
            ResourceStatus::Pending => 105,
            ResourceStatus::Starting => 106,
            ResourceStatus::Stopping => 107,
            ResourceStatus::Aborting => 108,
            ResourceStatus::Freezing => 109,
            ResourceStatus::Frozen => 110,
            ResourceStatus::Thawed => 111,
            ResourceStatus::Error => 112,
            ResourceStatus::Ready => 113,
            ResourceStatus::Success => 200,
            ResourceStatus::Failure => 400,
            ResourceStatus::Canceled => 401,
        }
    }

    /// Whether work is still going on: the code lies in the band from 100 to 199.
    pub open spec fn in_progress(self) -> bool {
        100 <= self.wire_code() < 200
    }

    #[verifier::when_used_as_spec(wire_code)]
    pub fn code(self) -> (c: u16)
        ensures
            c == self.wire_code(),
    {
        match self {
            ResourceStatus::OperationCreated => 100,
            ResourceStatus::Started => 101,
            ResourceStatus::Stopped => 102,
            ResourceStatus::Running => 103,
            ResourceStatus::Canceling => 104,
            ResourceStatus::Pending => 105,
            ResourceStatus::Starting => 106,
            ResourceStatus::Stopping => 107,
            ResourceStatus::Aborting => 108,
            ResourceStatus::Freezing => 109,
            ResourceStatus::Frozen => 110,
            ResourceStatus::Thawed => 111,
            ResourceStatus::Error => 112,
            ResourceStatus::Ready => 113,
            ResourceStatus::Success => 200,
            ResourceStatus::Failure => 400,
            ResourceStatus::Canceled => 401,
        }
    }

    /// Reads a code from the wire. A code outside 100..=113, 200, 400 and 401 is
    /// refused, never mapped to a default.
    pub fn from_code(code: u64) -> (r: Result<ResourceStatus, UnknownStatus>)
        ensures
            r == match status_of_code(code) {
                Some(status) => Ok::<ResourceStatus, UnknownStatus>(status),
                None => Err(UnknownStatus { code }),
            },
    {
        if code == 100 {
            Ok(ResourceStatus::OperationCreated)
        } else if code == 101 {
            Ok(ResourceStatus::Started)
        } else if code == 102 {
            Ok(ResourceStatus::Stopped)
        } else if code == 103 {
            Ok(ResourceStatus::Running)
        } else if code == 104 {
            Ok(ResourceStatus::Canceling)
        } else if code == 105 {
            Ok(ResourceStatus::Pending)
        } else if code == 106 {
            Ok(ResourceStatus::Starting)
        } else if code == 107 {
            Ok(ResourceStatus::Stopping)
        } else if code == 108 {
            Ok(ResourceStatus::Aborting)
        } else if code == 109 {
            Ok(ResourceStatus::Freezing)
        } else if code == 110 {
            Ok(ResourceStatus::Frozen)
        } else if code == 111 {
            Ok(ResourceStatus::Thawed)
        } else if code == 112 {
            Ok(ResourceStatus::Error)
        } else if code == 113 {
            Ok(ResourceStatus::Ready)
        } else if code == 200 {
            Ok(ResourceStatus::Success)
        } else if code == 400 {
            Ok(ResourceStatus::Failure)
        } else if code == 401 {
            Ok(ResourceStatus::Canceled)
        } else {
            Err(UnknownStatus { code })
        }
    }

    /// Whether the status is final: the code has left the band of work in progress.
    pub fn is_terminal(self) -> (r: bool)
        ensures
            r == !self.in_progress(),
            r == (self == ResourceStatus::Success || self == ResourceStatus::Failure || self
                == ResourceStatus::Canceled),
    {
        match self {
            ResourceStatus::Success | ResourceStatus::Failure | ResourceStatus::Canceled => true,
            _ => false,
        }
    }
}

/// The known codes are exactly 100 to 113, 200, 400 and 401, and reading a code
/// gives the status that is written as that code.
pub proof fn lemma_known_codes(code: u64)
    ensures
        status_of_code(code) is Some <==> (100 <= code <= 113 || code == 200 || code == 400
            || code == 401),
        status_of_code(code) matches Some(status) ==> status.wire_code() == code,
{
}

/// Writing a status as its code and reading the code back gives the status.
pub proof fn lemma_code_round_trip(status: ResourceStatus)
    ensures
        status_of_code(status.wire_code() as u64) == Some(status),
{
}

} // verus!
