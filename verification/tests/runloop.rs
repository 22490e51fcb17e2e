use ws_broadcast::key::BroadcastType;
use ws_broadcast::runloop::Directive;
use ws_broadcast::runloop::LoopEvent;
use ws_broadcast::runloop::LoopPhase;
use ws_broadcast::runloop::RunLoop;
use ws_broadcast::runloop::TerminationReason;
use ws_broadcast::session::WebSocket;

/// Drives the fixed teardown and checks it runs the abort wait, then the
/// closed wait, then returns.
fn drive_teardown(machine: &mut RunLoop) {
    assert_eq!(machine.phase, LoopPhase::AwaitingAbort);
    let d = machine.step(LoopEvent::AbortSignaled);
    assert!(matches!(d, Directive::AwaitClosed));
    assert_eq!(machine.phase, LoopPhase::AwaitingClosed);
    let d = machine.step(LoopEvent::ClosedSignaled);
    assert!(matches!(d, Directive::Finish));
    assert_eq!(machine.phase, LoopPhase::Done);
}

#[test]
fn end_to_end_pairwise_fanout() {
    // Two connections, A and B, both on Pairwise("alice", "bob").
    let mut ws = WebSocket::new();
    let target = BroadcastType::PointToPoint("alice", "bob");
    let mut sub_a = ws.subscribe_unwrap_or_insert(target);
    let mut sub_b = ws.subscribe_unwrap_or_insert(BroadcastType::PointToPoint("bob", "alice"));
    let mut loop_a = RunLoop::new();
    let mut loop_b = RunLoop::new();

    // A's transport yields one inbound unit; its request callback sets the
    // response body "hi".
    let d = loop_a.step(LoopEvent::InboundRead(true));
    assert!(matches!(d, Directive::RunRequestCycle));
    let response_body = b"hi".to_vec();
    let delivered = ws.send(target, response_body);
    assert_eq!(delivered.ok(), Some(2));
    let d = loop_a.step(LoopEvent::PublishDone(true));
    assert!(matches!(d, Directive::AwaitSelect));

    // B's broadcast branch receives "hi" and writes it out B's transport.
    let got_b = sub_b.try_next().expect("B's subscription saw the publish");
    let d = loop_b.step(LoopEvent::BroadcastRecv(Some(got_b)));
    match d {
        Directive::WriteAndFlush(unit) => assert_eq!(unit, b"hi".to_vec()),
        _ => panic!("B should write the received unit out"),
    }
    let d = loop_b.step(LoopEvent::WriteFlushDone(true));
    assert!(matches!(d, Directive::AwaitSelect));

    // A's own broadcast branch also receives "hi": the send fanned out to
    // all subscribers, A included.
    let got_a = sub_a.try_next().expect("A's subscription saw the publish");
    let d = loop_a.step(LoopEvent::BroadcastRecv(Some(got_a)));
    match d {
        Directive::WriteAndFlush(unit) => assert_eq!(unit, b"hi".to_vec()),
        _ => panic!("A should write the received unit out"),
    }
    let d = loop_a.step(LoopEvent::WriteFlushDone(true));
    assert!(matches!(d, Directive::AwaitSelect));
    assert_eq!(loop_a.reason, None);
    assert_eq!(loop_b.reason, None);
}

#[test]
fn read_failure_closes_without_publish() {
    // Simulated disconnect: the transport read fails. The closed callback
    // is owed, no publish happens, and both teardown waits resolve before
    // the loop returns.
    let mut machine = RunLoop::new();
    let d = machine.step(LoopEvent::InboundRead(false));
    assert!(matches!(d, Directive::NotifyClosedThenAwaitAbort));
    assert_eq!(machine.reason, Some(TerminationReason::PeerDisconnected));
    drive_teardown(&mut machine);
    assert_eq!(machine.reason, Some(TerminationReason::PeerDisconnected));
}

#[test]
fn publish_failure_is_terminal() {
    let mut machine = RunLoop::new();
    let d = machine.step(LoopEvent::InboundRead(true));
    assert!(matches!(d, Directive::RunRequestCycle));
    let d = machine.step(LoopEvent::PublishDone(false));
    assert!(matches!(d, Directive::AwaitAbort));
    assert_eq!(machine.reason, Some(TerminationReason::PublishFailed));
    drive_teardown(&mut machine);
}

#[test]
fn write_failure_terminates_on_broadcast_branch() {
    // The publish succeeded; the connection's own write back to its
    // transport fails. The loop terminates on the broadcast branch, not on
    // the inbound branch.
    let mut machine = RunLoop::new();
    let d = machine.step(LoopEvent::InboundRead(true));
    assert!(matches!(d, Directive::RunRequestCycle));
    let d = machine.step(LoopEvent::PublishDone(true));
    assert!(matches!(d, Directive::AwaitSelect));
    assert_eq!(machine.reason, None);

    let d = machine.step(LoopEvent::BroadcastRecv(Some(b"hi".to_vec())));
    assert!(matches!(d, Directive::WriteAndFlush(_)));
    let d = machine.step(LoopEvent::WriteFlushDone(false));
    assert!(matches!(d, Directive::AwaitAbort));
    assert_eq!(machine.reason, Some(TerminationReason::WriteFailed));
    drive_teardown(&mut machine);
}

#[test]
fn subscription_loss_is_terminal() {
    let mut machine = RunLoop::new();
    let d = machine.step(LoopEvent::BroadcastRecv(None));
    assert!(matches!(d, Directive::AwaitAbort));
    assert_eq!(machine.reason, Some(TerminationReason::SubscriptionClosed));
    drive_teardown(&mut machine);
}
