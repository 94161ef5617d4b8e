use echobench::codec::{CLIENT_CHAT, MESSAGE_TOTAL_SIZE, SERVER_ACK, SERVER_ECHO, SERVER_INFO};
use echobench::report::{aggregate, summarize};
use echobench::worker::{
    client_chat_frame, test_payload, Action, Phase, ReadEvent, WorkerEvent, WorkerState,
};

/// Runs one full loop iteration against a peer that answers every frame
/// with a copy tagged `reply_tag`.
fn one_iteration(w: &mut WorkerState, payload: &[u8], reply_tag: u8) {
    assert_eq!(w.next_action(), Action::PollStop);
    w.step(&WorkerEvent::StopFlag(false));
    assert_eq!(w.next_action(), Action::WriteFrame);
    let frame = client_chat_frame(payload);
    assert_eq!(frame.len(), MESSAGE_TOTAL_SIZE);
    assert_eq!(frame[0], CLIENT_CHAT);
    w.step(&WorkerEvent::WriteDone(true));
    assert_eq!(w.next_action(), Action::PollStop);
    w.step(&WorkerEvent::StopFlag(false));
    assert_eq!(w.next_action(), Action::ReadFrame);
    let mut reply = frame;
    reply[0] = reply_tag;
    w.step(&WorkerEvent::ReadDone(ReadEvent::Data(reply)));
}

#[test]
fn scenario_echo_peer_counts_every_response() {
    // an echoing peer: ten iterations give equal sent and received counts
    // and a success rate of exactly one hundred percent
    let payload = test_payload(100);
    assert_eq!(payload.len(), 100);
    let mut results = Vec::new();
    for _ in 0..10 {
        let mut w = WorkerState::new();
        assert_eq!(w.next_action(), Action::Connect);
        w.step(&WorkerEvent::Connected(true));
        for _ in 0..10 {
            one_iteration(&mut w, &payload, SERVER_ECHO);
        }
        w.step(&WorkerEvent::StopFlag(true));
        assert_eq!(w.next_action(), Action::Report);
        let r = w.result();
        assert_eq!(r.sent, 10);
        assert_eq!(r.received, 10);
        results.push(r);
    }
    let rep = summarize(&results, 2);
    assert_eq!(rep.total_sent, 100);
    assert_eq!(rep.total_received, 100);
    assert_eq!(rep.success_rate_hundredths, Some(10000));
}

#[test]
fn scenario_all_connections_fail() {
    // every worker fails to connect: each still reports a zero result, the
    // totals are zero and the success rate is undefined
    let mut results = Vec::new();
    for _ in 0..8 {
        let mut w = WorkerState::new();
        w.step(&WorkerEvent::Connected(false));
        assert_eq!(w.next_action(), Action::Report);
        let r = w.result();
        assert_eq!((r.sent, r.received), (0, 0));
        results.push(r);
    }
    assert_eq!(results.len(), 8);
    let totals = aggregate(&results);
    assert_eq!(totals.sent, 0);
    assert_eq!(totals.received, 0);
    let rep = summarize(&results, 2);
    assert_eq!(rep.success_rate_hundredths, None);
}

#[test]
fn scenario_peer_fails_every_write() {
    // a peer that drops every connection at once: the first write fails,
    // every worker reports a zero result, and the aggregate has no
    // success rate
    let mut results = Vec::new();
    for _ in 0..4 {
        let mut w = WorkerState::new();
        w.step(&WorkerEvent::Connected(true));
        w.step(&WorkerEvent::StopFlag(false));
        w.step(&WorkerEvent::WriteDone(false));
        assert_eq!(w.next_action(), Action::Report);
        let r = w.result();
        assert_eq!((r.sent, r.received), (0, 0));
        results.push(r);
    }
    let rep = summarize(&results, 2);
    assert_eq!(rep.total_sent, 0);
    assert_eq!(rep.total_received, 0);
    assert_eq!(rep.success_rate_hundredths, None);
}

#[test]
fn scenario_ack_and_info_tags_count_as_responses() {
    // a peer answering with ServerAck or ServerInfo instead of ServerEcho:
    // those tags still count toward received
    let payload = test_payload(16);
    let mut w = WorkerState::new();
    w.step(&WorkerEvent::Connected(true));
    one_iteration(&mut w, &payload, SERVER_ACK);
    one_iteration(&mut w, &payload, SERVER_INFO);
    w.step(&WorkerEvent::StopFlag(true));
    let r = w.result();
    assert_eq!(r.sent, 2);
    assert_eq!(r.received, 2);
}

#[test]
fn unknown_tag_is_not_counted() {
    let payload = test_payload(16);
    let mut w = WorkerState::new();
    w.step(&WorkerEvent::Connected(true));
    w.step(&WorkerEvent::StopFlag(false));
    w.step(&WorkerEvent::WriteDone(true));
    w.step(&WorkerEvent::StopFlag(false));
    let reply = client_chat_frame(&payload); // client tag, not server-originated
    w.step(&WorkerEvent::ReadDone(ReadEvent::Data(reply)));
    // the frame is discarded but the loop goes on
    assert_eq!(w.next_action(), Action::PollStop);
    let r = w.result();
    assert_eq!(r.sent, 1);
    assert_eq!(r.received, 0);
}

#[test]
fn short_read_is_retried_without_counting() {
    let mut w = WorkerState::new();
    w.step(&WorkerEvent::Connected(true));
    w.step(&WorkerEvent::StopFlag(false));
    w.step(&WorkerEvent::WriteDone(true));
    w.step(&WorkerEvent::StopFlag(false));
    w.step(&WorkerEvent::ReadDone(ReadEvent::Data(vec![SERVER_ECHO, 0, 0, 1])));
    // a partial frame abandons the iteration and polls again
    assert_eq!(w.next_action(), Action::PollStop);
    let r = w.result();
    assert_eq!(r.sent, 1);
    assert_eq!(r.received, 0);
}

#[test]
fn peer_close_ends_the_loop() {
    let mut w = WorkerState::new();
    w.step(&WorkerEvent::Connected(true));
    w.step(&WorkerEvent::StopFlag(false));
    w.step(&WorkerEvent::WriteDone(true));
    w.step(&WorkerEvent::StopFlag(false));
    w.step(&WorkerEvent::ReadDone(ReadEvent::Data(Vec::new())));
    assert_eq!(w.next_action(), Action::Report);
    let r = w.result();
    assert_eq!(r.sent, 1);
    assert_eq!(r.received, 0);
}

#[test]
fn read_failure_ends_the_loop() {
    let mut w = WorkerState::new();
    w.step(&WorkerEvent::Connected(true));
    w.step(&WorkerEvent::StopFlag(false));
    w.step(&WorkerEvent::WriteDone(true));
    w.step(&WorkerEvent::StopFlag(false));
    w.step(&WorkerEvent::ReadDone(ReadEvent::Failed));
    assert_eq!(w.next_action(), Action::Report);
}

#[test]
fn write_failure_keeps_earlier_counts() {
    let payload = test_payload(8);
    let mut w = WorkerState::new();
    w.step(&WorkerEvent::Connected(true));
    one_iteration(&mut w, &payload, SERVER_ECHO);
    w.step(&WorkerEvent::StopFlag(false));
    w.step(&WorkerEvent::WriteDone(false));
    assert_eq!(w.next_action(), Action::Report);
    let r = w.result();
    assert_eq!(r.sent, 1);
    assert_eq!(r.received, 1);
}

#[test]
fn stop_observed_before_send_halts_without_sending() {
    let mut w = WorkerState::new();
    w.step(&WorkerEvent::Connected(true));
    w.step(&WorkerEvent::StopFlag(true));
    assert_eq!(w.phase, Phase::Done);
    let sent_at_signal = w.result().sent;
    // later events are ignored: the worker never sends again
    w.step(&WorkerEvent::WriteDone(true));
    w.step(&WorkerEvent::StopFlag(false));
    assert_eq!(w.result().sent, sent_at_signal);
    assert_eq!(w.next_action(), Action::Report);
}

#[test]
fn stop_observed_after_send_halts_before_reading() {
    let payload = test_payload(8);
    let mut w = WorkerState::new();
    w.step(&WorkerEvent::Connected(true));
    w.step(&WorkerEvent::StopFlag(false));
    let _frame = client_chat_frame(&payload);
    w.step(&WorkerEvent::WriteDone(true));
    w.step(&WorkerEvent::StopFlag(true));
    assert_eq!(w.phase, Phase::Done);
    let sent_at_signal = w.result().sent;
    assert_eq!(sent_at_signal, 1);
    w.step(&WorkerEvent::WriteDone(true));
    assert_eq!(w.result().sent, sent_at_signal);
}

#[test]
fn test_payload_is_capped_and_filled() {
    let v = test_payload(5000);
    assert_eq!(v.len(), 1021);
    assert!(v.iter().all(|&b| b == b'A'));
    let w = test_payload(0);
    assert!(w.is_empty());
}
