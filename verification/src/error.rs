//! What can go wrong around a probe, and what each failure means for the
//! session and for a batch of targets.

use vstd::prelude::*;
use vstd::string::StringExecFns;

verus! {

/// Why a raw socket could not be opened.
#[derive(Clone, Copy, Debug, PartialEq, Eq, Structural)]
pub enum SocketFailure {
    /// The process lacks the privilege that a raw socket takes.
    PermissionDenied,
    /// The platform has no raw ICMP transport for this IP version.
    UnsupportedProtocol,
    /// The system refused for another reason, such as a lack of
    /// descriptors or of memory.
    Other,
}

/// The reason that a refusal to open a socket stands for: the missing
/// privilege first, the missing protocol second.
pub open spec fn socket_failure_of(permission_denied: bool, unsupported: bool) -> SocketFailure {
    if permission_denied {
        SocketFailure::PermissionDenied
    } else if unsupported {
        SocketFailure::UnsupportedProtocol
    } else {
        SocketFailure::Other
    }
}

/// The failures of the probe engine.
#[derive(Clone, Copy, Debug, PartialEq, Eq, Structural)]
pub enum ProbeError {
    /// The target string resolves to no IPv4 address.
    ResolutionFailed,
    /// The raw socket could not be opened.
    SocketOpenFailed(SocketFailure),
    /// A request could not be transmitted.
    SendFailed,
    /// The platform lacks a feature, such as setting the hop limit.
    PlatformUnsupportedFeature,
}

/// How to go on after a failure.
#[derive(Clone, Copy, Debug, PartialEq, Eq, Structural)]
pub enum Recovery {
    /// Skip this target and go on with the next of the batch.
    SkipTarget,
    /// End the session of this target; the batch goes on.
    AbortSession,
    /// Count the probe as timed out; the session goes on.
    CountAsTimeout,
    /// Tell the user once; the session goes on.
    ReportOnce,
}

/// The way to go on after `error`.
pub open spec fn recovery_of(error: ProbeError) -> Recovery {
    match error {
        ProbeError::ResolutionFailed => Recovery::SkipTarget,
        ProbeError::SocketOpenFailed(_) => Recovery::AbortSession,
        ProbeError::SendFailed => Recovery::CountAsTimeout,
        ProbeError::PlatformUnsupportedFeature => Recovery::ReportOnce,
    }
}

/// What the user is told about `error`.
pub open spec fn message_of(error: ProbeError) -> Seq<char> {
    match error {
        ProbeError::ResolutionFailed => "no IPv4 address found for this host"@,
        ProbeError::SocketOpenFailed(SocketFailure::PermissionDenied) =>
            "cannot open a raw ICMP socket: permission denied; run with elevated privileges"@,
        ProbeError::SocketOpenFailed(SocketFailure::UnsupportedProtocol) =>
            "cannot open a raw ICMP socket: the platform does not support it"@,
        ProbeError::SocketOpenFailed(SocketFailure::Other) =>
            "cannot open a raw ICMP socket: the system refused"@,
        ProbeError::SendFailed => "the request could not be sent"@,
        ProbeError::PlatformUnsupportedFeature =>
            "the hop limit cannot be set on this platform: answers are not those of single hops"@,
    }
}

/// What the user is told about `error` on the way to `host`.
pub open spec fn failure_text(host: Seq<char>, error: ProbeError) -> Seq<char> {
    host + ": "@ + message_of(error)
}

impl SocketFailure {
    /// Tells the reasons apart from what the system said when it refused
    /// the socket: that the permission is missing, that the protocol is not
    /// supported, or neither.
    pub fn of(permission_denied: bool, unsupported: bool) -> (failure: SocketFailure)
        ensures
            failure == socket_failure_of(permission_denied, unsupported),
    {
        if permission_denied {
            SocketFailure::PermissionDenied
        } else if unsupported {
            SocketFailure::UnsupportedProtocol
        } else {
            SocketFailure::Other
        }
    }
}

impl ProbeError {
    /// The way to go on after this failure.
    pub fn recovery(&self) -> (recovery: Recovery)
        ensures
            recovery == recovery_of(*self),
    {
        match self {
            ProbeError::ResolutionFailed => Recovery::SkipTarget,
            ProbeError::SocketOpenFailed(_) => Recovery::AbortSession,
            ProbeError::SendFailed => Recovery::CountAsTimeout,
            ProbeError::PlatformUnsupportedFeature => Recovery::ReportOnce,
        }
    }

    /// Whether the session of the target ends with this failure. Only a
    /// socket that cannot be opened ends it, and a name that does not
    /// resolve never lets it begin.
    pub fn ends_session(&self) -> (ends: bool)
        ensures
            ends == (recovery_of(*self) is AbortSession || recovery_of(*self) is SkipTarget),
    {
        match self {
            ProbeError::ResolutionFailed => true,
            ProbeError::SocketOpenFailed(_) => true,
            _ => false,
        }
    }

    /// What to tell the user.
    pub fn message(&self) -> (text: String)
        ensures
            text@ == message_of(*self),
    {
        match self {
            ProbeError::ResolutionFailed => String::from_str(
                "no IPv4 address found for this host",
            ),
            ProbeError::SocketOpenFailed(SocketFailure::PermissionDenied) => String::from_str(
                "cannot open a raw ICMP socket: permission denied; run with elevated privileges",
            ),
            ProbeError::SocketOpenFailed(SocketFailure::UnsupportedProtocol) => String::from_str(
                "cannot open a raw ICMP socket: the platform does not support it",
            ),
            ProbeError::SocketOpenFailed(SocketFailure::Other) => String::from_str(
                "cannot open a raw ICMP socket: the system refused",
            ),
            ProbeError::SendFailed => String::from_str("the request could not be sent"),
            ProbeError::PlatformUnsupportedFeature => String::from_str(
                "the hop limit cannot be set on this platform: answers are not those of single hops",
            ),
        }
    }

    /// What to tell the user about this failure on the way to `host`: the
    /// host first, then the message.
    pub fn describe(&self, host: &str) -> (text: String)
        ensures
            text@ == failure_text(host@, *self),
    {
        let mut text = String::from_str(host);
        text.append(": ");
        text.append(self.message().as_str());
        assert(text@ =~= failure_text(host@, *self));
        text
    }
}

} // verus!
