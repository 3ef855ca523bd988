use vstd::prelude::*;
use crate::codec::{as_version, spec_version};
use crate::error::{HandshakeError, TransportError};
use crate::protocol::{handshake_transfer, is_handshake_transfer, Transfer, HANDSHAKE_TRANSFERS};

verus! {

/// What the caller must do next for the handshake to go on.
#[derive(Clone, Copy, Debug, PartialEq, Eq)]
pub enum Action {
    /// Open a session on the device.
    Open,
    /// Perform this control transfer on the open session.
    Transfer(Transfer),
    /// Close the session.
    Release,
    /// The handshake is over, with this result.
    Finish(Result<u16, HandshakeError>),
}

/// The handshake with one device, as a state machine.
///
/// Each state names the action it waits on. An outcome is the USB stack's
/// answer to that action: the bytes that a read returned (for any other action
/// the bytes are not looked at), or the error that the stack reported.
#[derive(Clone, Copy, Debug, PartialEq, Eq)]
pub enum Handshake {
    /// Waiting for the session to open.
    Opening,
    /// Waiting for transfer `step` (counted from 0); `version` is the decoded
    /// protocol version once the query has been answered.
    Transferring { step: u8, version: u16 },
    /// Waiting for the session to close; the result is already known.
    Releasing(Result<u16, HandshakeError>),
    /// Done.
    Finished(Result<u16, HandshakeError>),
}

/// The version carried by a reply, when it has the two bytes the codec needs.
pub open spec fn reply_version(b: Seq<u8>) -> u16 {
    spec_version(b[0], b[1])
}

/// The state the handshake moves to when action of `s` ends with `outcome`.
pub open spec fn spec_advance(s: Handshake, outcome: Result<Seq<u8>, TransportError>) -> Handshake {
    match s {
        Handshake::Opening => match outcome {
            Ok(_) => Handshake::Transferring { step: 0, version: 0 },
            Err(e) => Handshake::Finished(Err(HandshakeError::TransportFailure(e))),
        },
        Handshake::Transferring { step, version } => match outcome {
            Err(e) => Handshake::Releasing(Err(HandshakeError::TransportFailure(e))),
            Ok(b) => if step == 0 {
                if b.len() != 2 {
                    Handshake::Releasing(Err(HandshakeError::TransportFailure(TransportError::Io)))
                } else if reply_version(b) < 1 {
                    Handshake::Releasing(Err(HandshakeError::UnsupportedVersion(reply_version(b))))
                } else {
                    Handshake::Transferring { step: 1, version: reply_version(b) }
                }
            } else if step + 1 < HANDSHAKE_TRANSFERS {
                Handshake::Transferring { step: (step + 1) as u8, version }
            } else {
                Handshake::Releasing(Ok(version))
            },
        },
        Handshake::Releasing(r) => Handshake::Finished(r),
        Handshake::Finished(r) => Handshake::Finished(r),
    }
}

/// `a` is the action that state `s` waits on.
pub open spec fn is_action_of(s: Handshake, a: Action) -> bool {
    match s {
        Handshake::Opening => a == Action::Open,
        Handshake::Transferring { step, .. } => match a {
            Action::Transfer(t) => is_handshake_transfer(t, step as int),
            _ => false,
        },
        Handshake::Releasing(_) => a == Action::Release,
        Handshake::Finished(r) => a == Action::Finish(r),
    }
}

/// The view of an outcome: the bytes of a reply instead of the vector.
pub open spec fn outcome_view(o: Result<Vec<u8>, TransportError>) -> Result<Seq<u8>, TransportError> {
    match o {
        Ok(b) => Ok(b@),
        Err(e) => Err(e),
    }
}

impl Handshake {
    /// A handshake is at most four transfers long, and the transfers after the
    /// query only run for a supported version.
    pub open spec fn wf(self) -> bool {
        match self {
            Handshake::Transferring { step, version } => step < HANDSHAKE_TRANSFERS && (step
                >= 1 ==> version >= 1),
            _ => true,
        }
    }

    /// How many actions are still ahead at most.
    pub open spec fn remaining(self) -> nat {
        match self {
            Handshake::Opening => 6,
            Handshake::Transferring { step, .. } => (6 - step - 1) as nat,
            Handshake::Releasing(_) => 1,
            Handshake::Finished(_) => 0,
        }
    }

    pub fn new() -> (r: Handshake)
        ensures
            r == Handshake::Opening,
            r.wf(),
    {
        Handshake::Opening
    }

    pub fn is_finished(&self) -> (r: bool)
        ensures
            r == (*self is Finished),
    {
        match self {
            Handshake::Finished(_) => true,
            _ => false,
        }
    }

    /// The action this state waits on.
    pub fn action(&self) -> (a: Action)
        requires
            self.wf(),
        ensures
            is_action_of(*self, a),
    {
        match self {
            Handshake::Opening => Action::Open,
            Handshake::Transferring { step, .. } => Action::Transfer(handshake_transfer(*step)),
            Handshake::Releasing(_) => Action::Release,
            Handshake::Finished(r) => Action::Finish(*r),
        }
    }

    /// Moves on by the outcome of the action this state waits on.
    pub fn advance(&mut self, outcome: Result<Vec<u8>, TransportError>)
        requires
            old(self).wf(),
        ensures
            final(self).wf(),
            *final(self) == spec_advance(*old(self), outcome_view(outcome)),
            !(*old(self) is Finished) ==> final(self).remaining() < old(self).remaining(),
    {
        let next = match *self {
            Handshake::Opening => match outcome {
                Ok(_) => Handshake::Transferring { step: 0, version: 0 },
                Err(e) => Handshake::Finished(Err(HandshakeError::TransportFailure(e))),
            },
            Handshake::Transferring { step, version } => match outcome {
                Err(e) => Handshake::Releasing(Err(HandshakeError::TransportFailure(e))),
                Ok(b) => if step == 0 {
                    if b.len() != 2 {
                        Handshake::Releasing(
                            Err(HandshakeError::TransportFailure(TransportError::Io)),
                        )
                    } else {
                        let v = as_version([b[0], b[1]]);
                        if v < 1 {
                            Handshake::Releasing(Err(HandshakeError::UnsupportedVersion(v)))
                        } else {
                            Handshake::Transferring { step: 1, version: v }
                        }
                    }
                } else if step + 1 < HANDSHAKE_TRANSFERS {
                    Handshake::Transferring { step: step + 1, version }
                } else {
                    Handshake::Releasing(Ok(version))
                },
            },
            Handshake::Releasing(r) => Handshake::Finished(r),
            Handshake::Finished(r) => Handshake::Finished(r),
        };
        *self = next;
    }
}

} // verus!
