//! Tests of the probe packet, the per-port session state machine, and the
//! batch scheduler.

use voipire::packet::{accept_capture_datagram, build_probe, extract_payload, MAX_UDP_PACKET_SIZE, RTP_HEADER_LEN};
use voipire::sched::{make_batches, port_sequence};
use voipire::session::{
    capture_window_elapsed, ProbePhase, ProbeSession, CAPTURE_WINDOW_MS, DISCOVERY_TIMEOUT_SECS,
    POLL_INTERVAL_MS,
};

#[test]
fn probe_packet_is_fixed_12_bytes() {
    let p = build_probe();
    assert_eq!(p.len(), 12);
    assert_eq!(p[0], 0x80);
    assert_eq!(p[1], 0x80);
    for i in 2..12 {
        assert_eq!(p[i], 0);
    }
    assert_eq!(RTP_HEADER_LEN, 12);
    assert_eq!(MAX_UDP_PACKET_SIZE, 65507);
}

#[test]
fn probe_packet_is_deterministic() {
    assert_eq!(build_probe(), build_probe());
}

#[test]
fn payload_strips_rtp_header() {
    let d: Vec<u8> = (0u8..20).collect();
    assert_eq!(extract_payload(&d), vec![12, 13, 14, 15, 16, 17, 18, 19]);
}

#[test]
fn payload_of_short_datagram_is_empty() {
    assert_eq!(extract_payload(&vec![]), Vec::<u8>::new());
    assert_eq!(extract_payload(&vec![0x80; 11]), Vec::<u8>::new());
    assert_eq!(extract_payload(&vec![0x80; 12]), Vec::<u8>::new());
    assert_eq!(extract_payload(&vec![0x80; 13]), vec![0x80]);
}

#[test]
fn capture_filter_checks_first_byte() {
    assert!(accept_capture_datagram(&vec![0x80, 1, 2]));
    assert!(!accept_capture_datagram(&vec![0x81, 1, 2]));
    assert!(!accept_capture_datagram(&vec![0x00]));
    assert!(!accept_capture_datagram(&vec![]));
}

#[test]
fn dead_port_session_holds_no_capture_bytes() {
    // A port that never answers: the session ends silently with nothing to
    // write, so no capture file is ever created.
    let mut s = ProbeSession::begin(20000);
    assert_eq!(s.phase, ProbePhase::Discovery);
    s.on_discovery(None);
    assert_eq!(s.phase, ProbePhase::Done);
    assert!(!s.live);
    assert!(s.capture.is_empty());
}

#[test]
fn live_session_starts_with_discovery_payload() {
    // An echo service that replies once with a 20-byte datagram: the
    // capture bytes are exactly the 8 payload bytes, and stay so when the
    // capture window passes without further traffic.
    let mut s = ProbeSession::begin(20000);
    let datagram: Vec<u8> = (0u8..20).collect();
    s.on_discovery(Some(datagram));
    assert_eq!(s.phase, ProbePhase::Capture);
    assert!(s.live);
    assert_eq!(s.capture, vec![12, 13, 14, 15, 16, 17, 18, 19]);
    assert_eq!(s.capture.len(), 8);
    s.on_window_elapsed();
    assert_eq!(s.phase, ProbePhase::Done);
    assert_eq!(s.capture.len(), 8);
}

#[test]
fn capture_appends_only_qualifying_payloads() {
    let mut s = ProbeSession::begin(9000);
    let mut discovery = vec![0x80u8; 12];
    discovery.extend_from_slice(&[1, 2, 3]);
    s.on_discovery(Some(discovery));
    assert_eq!(s.capture, vec![1, 2, 3]);

    let mut good = vec![0x80u8; 12];
    good.extend_from_slice(&[4, 5]);
    assert!(s.on_capture_datagram(&good));
    assert_eq!(s.capture, vec![1, 2, 3, 4, 5]);

    let mut bad = vec![0x55u8; 12];
    bad.extend_from_slice(&[6, 7]);
    assert!(!s.on_capture_datagram(&bad));
    assert_eq!(s.capture, vec![1, 2, 3, 4, 5]);

    let mut good2 = vec![0x80u8; 12];
    good2.extend_from_slice(&[8]);
    assert!(s.on_capture_datagram(&good2));
    assert_eq!(s.capture, vec![1, 2, 3, 4, 5, 8]);

    // The discovery payload is still a prefix of everything captured.
    assert_eq!(&s.capture[..3], &[1, 2, 3]);
}

#[test]
fn capture_filter_is_idempotent_on_the_output() {
    // Feeding the capture output back through the session appends it
    // unchanged: every datagram it was built from passed the filter.
    let mut s = ProbeSession::begin(9000);
    s.on_discovery(Some(vec![0x80u8; 12]));
    assert!(s.capture.is_empty());
    let mut d = vec![0x80u8; 12];
    d.extend_from_slice(&[0x80, 9]);
    assert!(s.on_capture_datagram(&d));
    let first_pass = s.capture.clone();
    // Rebuild from the output: a datagram carrying the output as payload
    // qualifies again (the output starts with 0x80) and nothing is lost.
    let mut s2 = ProbeSession::begin(9001);
    s2.on_discovery(Some(vec![0x80u8; 12]));
    let mut redelivered = vec![0x80u8; 12];
    redelivered.extend_from_slice(&first_pass);
    assert!(s2.on_capture_datagram(&redelivered));
    assert_eq!(s2.capture, first_pass);
}

#[test]
fn capture_window_decision_matches_constant() {
    assert_eq!(CAPTURE_WINDOW_MS, 10_000);
    assert_eq!(DISCOVERY_TIMEOUT_SECS, 4);
    assert_eq!(POLL_INTERVAL_MS, 10);
    assert!(!capture_window_elapsed(0));
    assert!(!capture_window_elapsed(9_999));
    assert!(capture_window_elapsed(10_000));
    assert!(capture_window_elapsed(10_001));
}

#[test]
fn port_sequence_is_descending_inclusive() {
    assert_eq!(port_sequence(100, 102), vec![102, 101, 100]);
    assert_eq!(port_sequence(20000, 20000), vec![20000]);
    assert_eq!(port_sequence(10, 5), Vec::<u16>::new());
    let full = port_sequence(16384, 32767);
    assert_eq!(full.len(), 16384);
    assert_eq!(full[0], 32767);
    assert_eq!(full[full.len() - 1], 16384);
}

#[test]
fn single_port_range_scans_that_port() {
    // equal bounds are one port, not an empty range
    assert_eq!(port_sequence(18554, 18554), vec![18554]);
}

#[test]
fn batches_respect_worker_budget() {
    let ports: Vec<u16> = port_sequence(0, 9);
    let batches = make_batches(&ports, 3);
    assert_eq!(batches.len(), 4); // ceil(10 / 3)
    for b in &batches {
        assert!(b.len() <= 3);
    }
    assert_eq!(batches[0], vec![9, 8, 7]);
    assert_eq!(batches[1], vec![6, 5, 4]);
    assert_eq!(batches[2], vec![3, 2, 1]);
    assert_eq!(batches[3], vec![0]);
}

#[test]
fn batches_cover_the_range_exactly_once() {
    let ports: Vec<u16> = port_sequence(1000, 1008);
    let batches = make_batches(&ports, 4);
    assert_eq!(batches.len(), 3); // ceil(9 / 4)
    let flat: Vec<u16> = batches.into_iter().flatten().collect();
    assert_eq!(flat, ports);
}

#[test]
fn empty_range_yields_no_batches() {
    let ports = port_sequence(8, 7);
    let batches = make_batches(&ports, 8);
    assert_eq!(batches.len(), 0);
}

#[test]
fn single_batch_when_budget_covers_range() {
    // Three ports under budget 3: one batch, dispatched in the
    // construction order 102, 101, 100.
    let ports = port_sequence(100, 102);
    let batches = make_batches(&ports, 3);
    assert_eq!(batches.len(), 1);
    assert_eq!(batches[0], vec![102, 101, 100]);
}

#[test]
fn budget_one_gives_one_port_per_batch() {
    let ports = port_sequence(20000, 20000);
    let batches = make_batches(&ports, 1);
    assert_eq!(batches.len(), 1);
    assert_eq!(batches[0], vec![20000]);
}
