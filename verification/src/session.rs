//! The per-port probe session, modelled as a state machine over plain
//! values. The unverified shell owns the UDP socket, the capture file and
//! the clock; it feeds each received datagram (or its absence) into the
//! session and mirrors `capture` to disk. The session decides everything
//! else: whether the port is live, which datagrams qualify, what the
//! capture file must contain, and when the capture window is over.

use vstd::prelude::*;

use crate::packet::{accept_capture_datagram, extract_payload, is_rtp_like, payload_of};

verus! {

/// Seconds a probe waits for the single discovery response.
pub const DISCOVERY_TIMEOUT_SECS: u64 = 4;

/// Milliseconds the sustained capture window lasts once a port is live.
pub const CAPTURE_WINDOW_MS: u64 = 10_000;

/// Milliseconds slept between capture-phase polling iterations.
pub const POLL_INTERVAL_MS: u64 = 10;

/// Where a probe stands in its lifecycle for one port.
#[derive(Clone, Copy, PartialEq, Eq, Structural, Debug)]
pub enum ProbePhase {
    /// The probe was sent; waiting for the single discovery response.
    Discovery,
    /// A response arrived; the sustained capture window is running.
    Capture,
    /// The probe is finished, either silently or after a full capture.
    Done,
}

/// The bytes the capture file must hold after a sequence of capture-phase
/// datagrams: the payloads of the qualifying ones, in receipt order, with
/// no delimiters.
pub open spec fn accepted_payloads(ds: Seq<Seq<u8>>) -> Seq<u8>
    decreases ds.len(),
{
    if ds.len() == 0 {
        Seq::<u8>::empty()
    } else {
        accepted_payloads(ds.drop_last()) + if is_rtp_like(ds.last()) {
            payload_of(ds.last())
        } else {
            Seq::<u8>::empty()
        }
    }
}

/// The capture-phase filter applied to a whole sequence of datagrams,
/// keeping exactly the qualifying ones in order.
pub open spec fn keep_rtp_like(ds: Seq<Seq<u8>>) -> Seq<Seq<u8>>
    decreases ds.len(),
{
    if ds.len() == 0 {
        Seq::<Seq<u8>>::empty()
    } else if is_rtp_like(ds.last()) {
        keep_rtp_like(ds.drop_last()).push(ds.last())
    } else {
        keep_rtp_like(ds.drop_last())
    }
}

/// One port's probe lifecycle: discovery, then an optional capture window.
pub struct ProbeSession {
    /// The target port this session probes.
    pub port: u16,
    /// Current phase of the lifecycle.
    pub phase: ProbePhase,
    /// Whether the discovery phase received a response.
    pub live: bool,
    /// Exact bytes that belong in the capture file so far. The shell
    /// appends each increment of this vector to `<prefix>-<port>.raw`.
    pub capture: Vec<u8>,
    /// The discovery response datagram, once one arrived.
    pub discovery: Ghost<Seq<u8>>,
    /// Every capture-phase datagram handed to the session, in order.
    pub log: Ghost<Seq<Seq<u8>>>,
}

impl ProbeSession {
    /// The session invariant: the capture bytes are always the discovery
    /// payload followed by the payloads of the qualifying logged datagrams,
    /// and a session that never went live holds no capture bytes at all.
    pub open spec fn wf(self) -> bool {
        &&& (self.phase is Discovery ==> !self.live && self.log@ == Seq::<Seq<u8>>::empty())
        &&& (self.phase is Capture ==> self.live)
        &&& (self.live ==> self.capture@ == payload_of(self.discovery@)
            + accepted_payloads(self.log@))
        &&& (!self.live ==> self.capture@ == Seq::<u8>::empty())
    }

    /// Start a probe session for one port, in the discovery phase. The
    /// shell then binds a socket, sends the probe, and waits up to
    /// `DISCOVERY_TIMEOUT_SECS` for a single response.
    pub fn begin(port: u16) -> (s: Self)
        ensures
            s.wf(),
            s.port == port,
            s.phase is Discovery,
            !s.live,
            s.capture@ == Seq::<u8>::empty(),
    {
        ProbeSession {
            port,
            phase: ProbePhase::Discovery,
            live: false,
            capture: Vec::new(),
            discovery: Ghost(Seq::empty()),
            log: Ghost(Seq::empty()),
        }
    }

    /// Record the outcome of the discovery receive. `None` means the
    /// receive timed out or errored: the port is dead, the session ends,
    /// and no capture file is ever created. `Some(d)` means the port is
    /// live: the capture file starts with `d`'s payload and the capture
    /// window begins.
    pub fn on_discovery(&mut self, resp: Option<Vec<u8>>)
        requires
            old(self).wf(),
            old(self).phase is Discovery,
        ensures
            final(self).wf(),
            final(self).port == old(self).port,
            resp is None ==> final(self).phase is Done && !final(self).live
                && final(self).capture@ == Seq::<u8>::empty(),
            resp matches Some(d) ==> final(self).phase is Capture && final(self).live
                && final(self).discovery@ == d@ && final(self).capture@ == payload_of(d@)
                && final(self).log@ == Seq::<Seq<u8>>::empty(),
    {
        match resp {
            None => {
                self.phase = ProbePhase::Done;
            },
            Some(d) => {
                self.phase = ProbePhase::Capture;
                self.live = true;
                self.discovery = Ghost(d@);
                self.capture = extract_payload(&d);
                proof {
                    assert(self.capture@ =~= payload_of(d@) + accepted_payloads(
                        Seq::<Seq<u8>>::empty(),
                    ));
                }
            },
        }
    }

    /// Record one capture-phase datagram. A qualifying datagram (first
    /// byte 0x80) has its payload appended to the capture bytes; any other
    /// datagram is discarded and the capture bytes are unchanged. Returns
    /// whether the datagram was appended.
    pub fn on_capture_datagram(&mut self, d: &Vec<u8>) -> (appended: bool)
        requires
            old(self).wf(),
            old(self).phase is Capture,
        ensures
            final(self).wf(),
            final(self).phase is Capture,
            final(self).port == old(self).port,
            final(self).live,
            final(self).discovery == old(self).discovery,
            final(self).log@ == old(self).log@.push(d@),
            appended == is_rtp_like(d@),
            appended ==> final(self).capture@ == old(self).capture@ + payload_of(d@),
            !appended ==> final(self).capture@ == old(self).capture@,
    {
        let keep = accept_capture_datagram(d);
        if keep {
            let mut pay = extract_payload(d);
            self.capture.append(&mut pay);
        }
        self.log = Ghost(self.log@.push(d@));
        proof {
            assert(self.log@.drop_last() =~= old(self).log@);
            assert(self.capture@ =~= payload_of(self.discovery@) + accepted_payloads(self.log@));
        }
        keep
    }

    /// End the capture window: the session is done and the capture bytes
    /// are final.
    pub fn on_window_elapsed(&mut self)
        requires
            old(self).wf(),
            old(self).phase is Capture,
        ensures
            final(self).wf(),
            final(self).phase is Done,
            final(self).port == old(self).port,
            final(self).live == old(self).live,
            final(self).capture@ == old(self).capture@,
            final(self).discovery == old(self).discovery,
            final(self).log == old(self).log,
    {
        self.phase = ProbePhase::Done;
    }
}

/// Once a port is live, the discovery payload is a prefix of the capture
/// bytes, whatever the capture phase later appended: the capture file of a
/// port that answered during discovery begins with exactly that answer's
/// payload.
pub proof fn lemma_discovery_payload_is_prefix(s: ProbeSession)
    requires
        s.wf(),
        s.live,
    ensures
        s.capture@.len() >= payload_of(s.discovery@).len(),
        s.capture@.subrange(0, payload_of(s.discovery@).len() as int) == payload_of(s.discovery@),
{
    assert(s.capture@.subrange(0, payload_of(s.discovery@).len() as int) =~= payload_of(
        s.discovery@,
    ));
}

/// The capture-phase filter is idempotent: filtering a sequence of
/// datagrams that already passed the filter changes nothing.
pub proof fn lemma_filter_idempotent(ds: Seq<Seq<u8>>)
    ensures
        keep_rtp_like(keep_rtp_like(ds)) == keep_rtp_like(ds),
    decreases ds.len(),
{
    if ds.len() == 0 {
    } else {
        let rest = ds.drop_last();
        let last = ds.last();
        lemma_filter_idempotent(rest);
        if is_rtp_like(last) {
            let kept = keep_rtp_like(rest).push(last);
            assert(kept.drop_last() =~= keep_rtp_like(rest));
            assert(keep_rtp_like(kept) == keep_rtp_like(keep_rtp_like(rest)).push(last));
        }
    }
}

/// Non-qualifying datagrams leave no trace: the bytes captured from a
/// sequence of datagrams equal the bytes captured from its filtered form,
/// so a datagram whose first byte is not 0x80 never appears in the output.
pub proof fn lemma_capture_ignores_rejected(ds: Seq<Seq<u8>>)
    ensures
        accepted_payloads(keep_rtp_like(ds)) == accepted_payloads(ds),
    decreases ds.len(),
{
    if ds.len() == 0 {
    } else {
        let rest = ds.drop_last();
        let last = ds.last();
        lemma_capture_ignores_rejected(rest);
        if is_rtp_like(last) {
            let kept = keep_rtp_like(rest).push(last);
            assert(kept.drop_last() =~= keep_rtp_like(rest));
            assert(accepted_payloads(kept) == accepted_payloads(keep_rtp_like(rest))
                + payload_of(last));
        } else {
            assert(accepted_payloads(ds) =~= accepted_payloads(rest));
        }
    }
}

/// A live session's capture bytes are fully explained by the filtered log:
/// the discovery payload followed by the payloads of exactly those logged
/// datagrams that pass the first-byte filter.
pub proof fn lemma_session_capture_filtered(s: ProbeSession)
    requires
        s.wf(),
        s.live,
    ensures
        s.capture@ == payload_of(s.discovery@) + accepted_payloads(keep_rtp_like(s.log@)),
{
    lemma_capture_ignores_rejected(s.log@);
}

/// Decide whether the sustained capture window is over, given the
/// milliseconds elapsed since the capture phase began. The shell polls
/// this each iteration; the window ends exactly when
/// `CAPTURE_WINDOW_MS` milliseconds have passed.
pub fn capture_window_elapsed(elapsed_ms: u64) -> (over: bool)
    ensures
        over == (elapsed_ms >= CAPTURE_WINDOW_MS),
{
    elapsed_ms >= CAPTURE_WINDOW_MS
}

} // verus!
