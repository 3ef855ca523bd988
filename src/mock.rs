use vstd::prelude::*;
use crate::codec::spec_version;
use crate::engine::{is_action_of, outcome_view, reply_version, spec_advance, Action, Handshake};
use crate::error::{HandshakeError, TransportError};
use crate::protocol::{is_handshake_transfer, Transfer};

verus! {

/// A device that answers from a script and records what it was asked to do,
/// so that the handshake can run without hardware.
pub struct MockDevice {
    /// The error that opening the device fails with, if any.
    pub open_error: Option<TransportError>,
    /// The answer to transfer `k` is `replies[k]`; a transfer past the end
    /// succeeds with no bytes.
    pub replies: Vec<Result<Vec<u8>, TransportError>>,
    /// How many times a session was opened.
    pub opens: u64,
    /// How many times a session was closed.
    pub releases: u64,
    /// The transfers performed, in order.
    pub transfers: Vec<Transfer>,
}

/// The scripted answer to transfer `k`.
pub open spec fn reply_of(replies: Seq<Result<Vec<u8>, TransportError>>, k: int) -> Result<
    Seq<u8>,
    TransportError,
> {
    if 0 <= k < replies.len() {
        outcome_view(replies[k])
    } else {
        Ok(Seq::empty())
    }
}

/// The query is answered with two bytes that carry a supported version.
pub open spec fn query_accepted(replies: Seq<Result<Vec<u8>, TransportError>>) -> bool {
    match reply_of(replies, 0) {
        Ok(b) => b.len() == 2 && reply_version(b) >= 1,
        Err(_) => false,
    }
}

/// The supported version that the query reports, when `query_accepted`.
pub open spec fn query_version(replies: Seq<Result<Vec<u8>, TransportError>>) -> u16 {
    reply_version(reply_of(replies, 0)->Ok_0)
}

/// How many transfers a handshake on an opened device performs: it stops at the
/// first transfer that fails or at a rejected query, and never goes past four.
pub open spec fn transfers_attempted(replies: Seq<Result<Vec<u8>, TransportError>>) -> nat {
    if !query_accepted(replies) {
        1
    } else if reply_of(replies, 1) is Err {
        2
    } else if reply_of(replies, 2) is Err {
        3
    } else {
        4
    }
}

/// The result of a handshake on a device with this script.
pub open spec fn probe_result(
    open_error: Option<TransportError>,
    replies: Seq<Result<Vec<u8>, TransportError>>,
) -> Result<u16, HandshakeError> {
    match open_error {
        Some(e) => Err(HandshakeError::TransportFailure(e)),
        None => match reply_of(replies, 0) {
            Err(e) => Err(HandshakeError::TransportFailure(e)),
            Ok(b) => if b.len() != 2 {
                Err(HandshakeError::TransportFailure(TransportError::Io))
            } else if reply_version(b) < 1 {
                Err(HandshakeError::UnsupportedVersion(reply_version(b)))
            } else {
                let n = transfers_attempted(replies);
                if n == 4 && reply_of(replies, 3) is Ok {
                    Ok(reply_version(b))
                } else {
                    Err(HandshakeError::TransportFailure(reply_of(replies, n - 1)->Err_0))
                }
            },
        },
    }
}

/// The first `n` transfers in `log` are the first `n` steps of the handshake.
pub open spec fn follows_handshake(log: Seq<Transfer>, n: int) -> bool {
    &&& log.len() == n
    &&& forall|k: int| 0 <= k < n ==> is_handshake_transfer(#[trigger] log[k], k)
}

impl MockDevice {
    /// Nothing was asked of the device yet.
    pub open spec fn is_fresh(&self) -> bool {
        self.opens == 0 && self.releases == 0 && self.transfers@.len() == 0
    }

    /// How far the device has gone along with the handshake in state `hs`.
    spec fn tracks(&self, hs: Handshake) -> bool {
        let replies = self.replies@;
        match hs {
            Handshake::Opening => self.is_fresh(),
            Handshake::Transferring { step, version } => {
                &&& self.open_error is None
                &&& self.opens == 1
                &&& self.releases == 0
                &&& follows_handshake(self.transfers@, step as int)
                &&& forall|j: int| 0 <= j < step ==> #[trigger] reply_of(replies, j) is Ok
                &&& step >= 1 ==> query_accepted(replies) && version == query_version(replies)
            },
            Handshake::Releasing(r) => {
                &&& self.open_error is None
                &&& self.opens == 1
                &&& self.releases == 0
                &&& follows_handshake(self.transfers@, transfers_attempted(replies) as int)
                &&& r == probe_result(self.open_error, replies)
            },
            Handshake::Finished(r) => {
                &&& self.opens == 1
                &&& self.releases == if self.open_error is None {
                    1u64
                } else {
                    0u64
                }
                &&& follows_handshake(
                    self.transfers@,
                    if self.open_error is None {
                        transfers_attempted(replies) as int
                    } else {
                        0
                    },
                )
                &&& r == probe_result(self.open_error, replies)
            },
        }
    }

    pub fn new(open_error: Option<TransportError>, replies: Vec<Result<Vec<u8>, TransportError>>) -> (r: MockDevice)
        ensures
            r.open_error == open_error,
            r.replies@ == replies@,
            r.is_fresh(),
    {
        MockDevice { open_error, replies, opens: 0, releases: 0, transfers: Vec::new() }
    }

    /// Performs one action: counts opens and closes, records transfers and
    /// answers them from the script.
    pub fn perform(&mut self, action: &Action) -> (r: Result<Vec<u8>, TransportError>)
        requires
            old(self).opens < u64::MAX,
            old(self).releases < u64::MAX,
            old(self).transfers@.len() < usize::MAX,
        ensures
            final(self).open_error == old(self).open_error,
            final(self).replies@ == old(self).replies@,
            match *action {
                Action::Open => {
                    &&& final(self).opens == old(self).opens + 1
                    &&& final(self).releases == old(self).releases
                    &&& final(self).transfers@ == old(self).transfers@
                    &&& match old(self).open_error {
                        Some(e) => r == Err::<Vec<u8>, TransportError>(e),
                        None => r is Ok,
                    }
                },
                Action::Transfer(t) => {
                    &&& final(self).opens == old(self).opens
                    &&& final(self).releases == old(self).releases
                    &&& final(self).transfers@ == old(self).transfers@.push(t)
                    &&& outcome_view(r) == reply_of(
                        old(self).replies@,
                        old(self).transfers@.len() as int,
                    )
                },
                Action::Release => {
                    &&& final(self).opens == old(self).opens
                    &&& final(self).releases == old(self).releases + 1
                    &&& final(self).transfers@ == old(self).transfers@
                },
                Action::Finish(_) => {
                    &&& final(self).opens == old(self).opens
                    &&& final(self).releases == old(self).releases
                    &&& final(self).transfers@ == old(self).transfers@
                },
            },
    {
        match action {
            Action::Open => {
                self.opens = self.opens + 1;
                match self.open_error {
                    Some(e) => Err(e),
                    None => Ok(Vec::new()),
                }
            },
            Action::Transfer(t) => {
                let k = self.transfers.len();
                self.transfers.push(*t);
                if k < self.replies.len() {
                    match &self.replies[k] {
                        Ok(b) => Ok(b.clone()),
                        Err(e) => Err(*e),
                    }
                } else {
                    Ok(Vec::new())
                }
            },
            Action::Release => {
                self.releases = self.releases + 1;
                Ok(Vec::new())
            },
            Action::Finish(_) => Ok(Vec::new()),
        }
    }

    /// Runs the whole handshake against this device and returns its result.
    pub fn probe(&mut self) -> (r: Result<u16, HandshakeError>)
        requires
            old(self).is_fresh(),
        ensures
            final(self).open_error == old(self).open_error,
            final(self).replies@ == old(self).replies@,
            r == probe_result(old(self).open_error, old(self).replies@),
            final(self).opens == 1,
            final(self).releases == if old(self).open_error is None {
                1u64
            } else {
                0u64
            },
            follows_handshake(
                final(self).transfers@,
                if old(self).open_error is None {
                    transfers_attempted(old(self).replies@) as int
                } else {
                    0
                },
            ),
    {
        let mut hs = Handshake::new();
        loop
            invariant
                hs.wf(),
                self.open_error == old(self).open_error,
                self.replies@ == old(self).replies@,
                self.tracks(hs),
            decreases hs.remaining(),
        {
            if let Handshake::Finished(r) = hs {
                return r;
            }
            let action = hs.action();
            let outcome = self.perform(&action);
            hs.advance(outcome);
        }
    }
}

/// A device that reports a version below 1 gets the version query and nothing
/// else: the handshake ends in `UnsupportedVersion` of that version after one
/// transfer.
pub proof fn unsupported_version_ends_after_query(
    replies: Seq<Result<Vec<u8>, TransportError>>,
    lo: u8,
    hi: u8,
)
    requires
        reply_of(replies, 0) == Ok::<Seq<u8>, TransportError>(seq![lo, hi]),
        spec_version(lo, hi) < 1,
    ensures
        transfers_attempted(replies) == 1,
        probe_result(None, replies) == Err::<u16, HandshakeError>(
            HandshakeError::UnsupportedVersion(spec_version(lo, hi)),
        ),
{
}

/// For a supported version, the handshake performs all four transfers when none
/// fails, and it succeeds with that version if and only if none fails.
pub proof fn supported_version_succeeds_iff_all_transfers_do(
    replies: Seq<Result<Vec<u8>, TransportError>>,
    lo: u8,
    hi: u8,
)
    requires
        reply_of(replies, 0) == Ok::<Seq<u8>, TransportError>(seq![lo, hi]),
        spec_version(lo, hi) >= 1,
    ensures
        (forall|k: int| 1 <= k < 4 ==> #[trigger] reply_of(replies, k) is Ok) ==> transfers_attempted(
            replies,
        ) == 4,
        (probe_result(None, replies) == Ok::<u16, HandshakeError>(spec_version(lo, hi))) <==> (
        forall|k: int| 1 <= k < 4 ==> #[trigger] reply_of(replies, k) is Ok),
        probe_result(None, replies) is Ok ==> probe_result(None, replies) == Ok::<
            u16,
            HandshakeError,
        >(spec_version(lo, hi)),
{
    assert(reply_version(seq![lo, hi]) == spec_version(lo, hi));
}

/// When transfer `k` (counted from 1) is the first to fail, exactly `k`
/// transfers were attempted and the handshake fails with that transport error.
pub proof fn failed_transfer_stops_handshake(
    replies: Seq<Result<Vec<u8>, TransportError>>,
    k: int,
    e: TransportError,
)
    requires
        1 <= k <= 4,
        reply_of(replies, k - 1) == Err::<Seq<u8>, TransportError>(e),
        k >= 2 ==> query_accepted(replies),
        forall|j: int| 1 <= j < k - 1 ==> #[trigger] reply_of(replies, j) is Ok,
    ensures
        transfers_attempted(replies) == k,
        probe_result(None, replies) == Err::<u16, HandshakeError>(
            HandshakeError::TransportFailure(e),
        ),
{
    if k >= 3 {
        assert(reply_of(replies, 1) is Ok);
    }
    if k == 4 {
        assert(reply_of(replies, 2) is Ok);
    }
}

} // verus!
