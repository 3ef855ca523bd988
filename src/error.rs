use vstd::prelude::*;

verus! {

/// A failure reported by the host USB stack for one call.
#[derive(Clone, Copy, Debug, PartialEq, Eq, Structural)]
pub enum TransportError {
    Io,
    InvalidParam,
    Access,
    NoDevice,
    NotFound,
    Busy,
    Timeout,
    Overflow,
    Pipe,
    Interrupted,
    NoMem,
    NotSupported,
    Other,
    BadDescriptor,
}

/// Why the handshake with one device did not complete.
#[derive(Clone, Copy, Debug, PartialEq, Eq, Structural)]
pub enum HandshakeError {
    /// The USB stack failed the open or one of the transfers.
    TransportFailure(TransportError),
    /// The device answered the version query with a version below 1.
    UnsupportedVersion(u16),
}

/// Every way a run of the tool can fail, as far as its exit status is concerned.
#[derive(Clone, Copy, Debug, PartialEq, Eq, Structural)]
pub enum Failure {
    Usb(TransportError),
    Parse,
    Args,
    UnsupportedVersion(u16),
    Journal,
}

/// The stable number of each transport failure.
pub open spec fn spec_transport_code(e: TransportError) -> u8 {
    match e {
        TransportError::Io => 1,
        TransportError::InvalidParam => 2,
        TransportError::Access => 3,
        TransportError::NoDevice => 4,
        TransportError::NotFound => 5,
        TransportError::Busy => 6,
        TransportError::Timeout => 7,
        TransportError::Overflow => 8,
        TransportError::Pipe => 9,
        TransportError::Interrupted => 10,
        TransportError::NoMem => 11,
        TransportError::NotSupported => 12,
        TransportError::Other => 13,
        TransportError::BadDescriptor => 14,
    }
}

/// The exit status that belongs to each failure.
pub open spec fn spec_exit_code(f: Failure) -> u8 {
    match f {
        Failure::Usb(e) => spec_transport_code(e),
        Failure::Parse => 20,
        Failure::Args => 30,
        Failure::UnsupportedVersion(_) => 40,
        Failure::Journal => 50,
    }
}

pub open spec fn spec_failure_of(e: HandshakeError) -> Failure {
    match e {
        HandshakeError::TransportFailure(t) => Failure::Usb(t),
        HandshakeError::UnsupportedVersion(v) => Failure::UnsupportedVersion(v),
    }
}

impl TransportError {
    pub fn code(&self) -> (r: u8)
        ensures
            r == spec_transport_code(*self),
            1 <= r <= 14,
    {
        match self {
            TransportError::Io => 1,
            TransportError::InvalidParam => 2,
            TransportError::Access => 3,
            TransportError::NoDevice => 4,
            TransportError::NotFound => 5,
            TransportError::Busy => 6,
            TransportError::Timeout => 7,
            TransportError::Overflow => 8,
            TransportError::Pipe => 9,
            TransportError::Interrupted => 10,
            TransportError::NoMem => 11,
            TransportError::NotSupported => 12,
            TransportError::Other => 13,
            TransportError::BadDescriptor => 14,
        }
    }
}

impl Failure {
    /// The exit status of a run that ended in this failure; never 0.
    pub fn exit_code(&self) -> (r: u8)
        ensures
            r == spec_exit_code(*self),
            r != 0,
    {
        match self {
            Failure::Usb(e) => e.code(),
            Failure::Parse => 20,
            Failure::Args => 30,
            Failure::UnsupportedVersion(_) => 40,
            Failure::Journal => 50,
        }
    }
}

impl From<HandshakeError> for Failure {
    fn from(e: HandshakeError) -> (r: Failure)
        ensures
            r == spec_failure_of(e),
    {
        match e {
            HandshakeError::TransportFailure(t) => Failure::Usb(t),
            HandshakeError::UnsupportedVersion(v) => Failure::UnsupportedVersion(v),
        }
    }
}

impl vstd::std_specs::convert::FromSpecImpl<HandshakeError> for Failure {
    open spec fn obeys_from_spec() -> bool {
        true
    }

    open spec fn from_spec(e: HandshakeError) -> Failure {
        spec_failure_of(e)
    }
}

/// Distinct failures of the transport keep distinct exit statuses, and none of
/// them collides with a failure of another kind.
pub proof fn transport_codes_are_distinct(a: TransportError, b: TransportError, f: Failure)
    ensures
        spec_transport_code(a) == spec_transport_code(b) ==> a == b,
        !(f is Usb) ==> spec_exit_code(f) != spec_transport_code(a),
{
}

} // verus!
