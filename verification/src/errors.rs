use vstd::prelude::*;

verus! {

/// The failure classes the supervisor reports across the host boundary.
///
/// `Unconfigured` carries the name of the missing requirement; `Corrupt` the
/// document (or parameter) that exists but does not parse; `SpawnFailure` the
/// operating-system error text; `RemoteError` the error text the gateway
/// printed.
#[derive(Debug, PartialEq, Eq)]
pub enum SupervisorError {
    Unconfigured(String),
    Corrupt(String),
    SpawnFailure(String),
    ReadinessTimeout,
    EmptyResponse,
    RemoteError(String),
}

impl SupervisorError {
    /// A human-readable message for the operator; the timeout message names
    /// the external dependency to check.
    pub fn message(&self) -> (r: String)
        ensures
            self matches SupervisorError::Unconfigured(w) ==> r@ == "not configured: "@ + w@,
            self matches SupervisorError::Corrupt(w) ==> r@ == "corrupt: "@ + w@,
            self matches SupervisorError::SpawnFailure(w) ==> r@ == "failed to launch the gateway: "@
                + w@,
            self matches SupervisorError::ReadinessTimeout ==> r@
                == "gateway did not report healthy within the readiness budget; check the openclaw installation"@,
            self matches SupervisorError::EmptyResponse ==> r@ == "empty response from gateway"@,
            self matches SupervisorError::RemoteError(w) ==> r@ == "gateway error: "@ + w@,
    {
        match self {
            SupervisorError::Unconfigured(w) => {
                let mut s = String::from_str("not configured: ");
                s.append(w.as_str());
                s
            },
            SupervisorError::Corrupt(w) => {
                let mut s = String::from_str("corrupt: ");
                s.append(w.as_str());
                s
            },
            SupervisorError::SpawnFailure(w) => {
                let mut s = String::from_str("failed to launch the gateway: ");
                s.append(w.as_str());
                s
            },
            SupervisorError::ReadinessTimeout => String::from_str(
                "gateway did not report healthy within the readiness budget; check the openclaw installation",
            ),
            SupervisorError::EmptyResponse => String::from_str("empty response from gateway"),
            SupervisorError::RemoteError(w) => {
                let mut s = String::from_str("gateway error: ");
                s.append(w.as_str());
                s
            },
        }
    }
}

} // verus!
