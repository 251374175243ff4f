use unproxy::{
    AcceptLoop, AcceptPolicy, Copier, CopyAction, CopyFailure, Direction, Fatal, LoopAction,
    LoopEvent, LoopPhase, Relay, RelayOutcome, Side, BUF_SIZE,
};

/// Drives one direction through a read of `data` and a single full write.
fn forward_all(r: &mut Relay, d: Direction, data: &[u8]) {
    assert_eq!(r.action(d), CopyAction::Read);
    r.on_read(d, data);
    assert_eq!(r.action(d), CopyAction::Write);
    assert_eq!(r.unwritten(d), data);
    r.on_written(d, data.len());
    assert_eq!(r.action(d), CopyAction::Read);
}

/// Drives one direction through the end of its source and a clean shutdown.
fn end_stream(r: &mut Relay, d: Direction) {
    r.on_read(d, &[]);
    assert_eq!(r.action(d), CopyAction::Shutdown);
    r.on_shutdown(d, true);
    assert_eq!(r.action(d), CopyAction::Stop);
}

#[test]
fn ping_pong_scenario() {
    let mut r = Relay::new();
    forward_all(&mut r, Direction::Forward, b"PING");
    end_stream(&mut r, Direction::Forward);
    assert_eq!(r.outcome(), None);
    forward_all(&mut r, Direction::Backward, b"PONG");
    end_stream(&mut r, Direction::Backward);
    assert_eq!(
        r.outcome(),
        Some(RelayOutcome { forward: Ok(4), backward: Ok(4) })
    );
}

#[test]
fn partial_writes_are_drained_in_order() {
    let mut c = Copier::new();
    c.on_read(b"hello");
    c.on_written(2);
    assert_eq!(c.action(), CopyAction::Write);
    assert_eq!(c.unwritten(), b"llo");
    c.on_written(1);
    assert_eq!(c.unwritten(), b"lo");
    c.on_written(2);
    assert_eq!(c.action(), CopyAction::Read);
    assert_eq!(c.result(), None);
    c.on_read(b"!");
    c.on_written(1);
    c.on_read(&[]);
    c.on_shutdown(true);
    assert_eq!(c.result(), Some(Ok(6)));
}

#[test]
fn empty_stream_forwards_nothing_and_shuts_down() {
    let mut c = Copier::new();
    assert_eq!(c.action(), CopyAction::Read);
    c.on_read(&[]);
    assert_eq!(c.action(), CopyAction::Shutdown);
    c.on_shutdown(true);
    assert_eq!(c.result(), Some(Ok(0)));
}

#[test]
fn full_buffer_read_is_forwarded() {
    let data: Vec<u8> = (0..BUF_SIZE).map(|i| (i % 251) as u8).collect();
    let mut c = Copier::new();
    c.on_read(&data);
    assert_eq!(c.unwritten(), &data[..]);
    c.on_written(BUF_SIZE);
    c.on_read(&[]);
    c.on_shutdown(true);
    assert_eq!(c.result(), Some(Ok(1024)));
}

#[test]
fn read_failure_is_tagged_read() {
    let mut c = Copier::new();
    c.on_read(b"abc");
    c.on_written(3);
    c.on_read_failed();
    assert_eq!(c.action(), CopyAction::Stop);
    assert_eq!(c.result(), Some(Err(CopyFailure { side: Side::Read, moved: 3 })));
}

#[test]
fn write_failure_is_tagged_write() {
    let mut c = Copier::new();
    c.on_read(b"abcdef");
    c.on_written(4);
    c.on_write_failed();
    assert_eq!(c.action(), CopyAction::Stop);
    assert_eq!(c.result(), Some(Err(CopyFailure { side: Side::Write, moved: 4 })));
}

#[test]
fn write_accepting_nothing_fails() {
    let mut c = Copier::new();
    c.on_read(b"xy");
    c.on_written(0);
    assert_eq!(c.result(), Some(Err(CopyFailure { side: Side::Write, moved: 0 })));
}

#[test]
fn shutdown_failure_fails_the_copy() {
    let mut c = Copier::new();
    c.on_read(b"xy");
    c.on_written(2);
    c.on_read(&[]);
    c.on_shutdown(false);
    assert_eq!(c.result(), Some(Err(CopyFailure { side: Side::Write, moved: 2 })));
}

#[test]
fn directions_do_not_mix() {
    let mut r = Relay::new();
    r.on_read(Direction::Forward, b"abc");
    r.on_read(Direction::Backward, b"0123456789");
    assert_eq!(r.unwritten(Direction::Forward), b"abc");
    assert_eq!(r.unwritten(Direction::Backward), b"0123456789");
    r.on_written(Direction::Backward, 10);
    assert_eq!(r.unwritten(Direction::Forward), b"abc");
    r.on_written(Direction::Forward, 3);
    end_stream(&mut r, Direction::Backward);
    end_stream(&mut r, Direction::Forward);
    assert_eq!(
        r.outcome(),
        Some(RelayOutcome { forward: Ok(3), backward: Ok(10) })
    );
}

#[test]
fn half_close_keeps_the_way_back_open() {
    let mut r = Relay::new();
    forward_all(&mut r, Direction::Forward, b"request");
    end_stream(&mut r, Direction::Forward);
    assert_eq!(r.outcome(), None);
    assert_eq!(r.action(Direction::Backward), CopyAction::Read);
    forward_all(&mut r, Direction::Backward, b"response part one");
    forward_all(&mut r, Direction::Backward, b", part two");
    assert_eq!(r.outcome(), None);
    end_stream(&mut r, Direction::Backward);
    assert_eq!(
        r.outcome(),
        Some(RelayOutcome { forward: Ok(7), backward: Ok(27) })
    );
}

#[test]
fn failure_of_one_direction_lets_the_other_finish() {
    let mut r = Relay::new();
    r.on_read(Direction::Forward, b"lost");
    r.on_write_failed(Direction::Forward);
    assert_eq!(r.action(Direction::Forward), CopyAction::Stop);
    assert_eq!(r.outcome(), None);
    forward_all(&mut r, Direction::Backward, b"still delivered");
    end_stream(&mut r, Direction::Backward);
    assert_eq!(
        r.outcome(),
        Some(RelayOutcome {
            forward: Err(CopyFailure { side: Side::Write, moved: 0 }),
            backward: Ok(15),
        })
    );
}

#[test]
fn many_relays_are_independent() {
    let n: usize = 64;
    let mut relays: Vec<Relay> = (0..n).map(|_| Relay::new()).collect();
    let payload = |i: usize| -> Vec<u8> { (0..(i * 7 + 1)).map(|k| (k + i) as u8).collect() };
    for (i, r) in relays.iter_mut().enumerate() {
        r.on_read(Direction::Forward, &payload(i));
    }
    for (i, r) in relays.iter_mut().enumerate().rev() {
        assert_eq!(r.unwritten(Direction::Forward), &payload(i)[..]);
        let len = payload(i).len();
        r.on_written(Direction::Forward, len);
        end_stream(r, Direction::Forward);
        forward_all(r, Direction::Backward, &payload(i));
        end_stream(r, Direction::Backward);
    }
    for (i, r) in relays.iter().enumerate() {
        let len = (i * 7 + 1) as u64;
        assert_eq!(
            r.outcome(),
            Some(RelayOutcome { forward: Ok(len), backward: Ok(len) })
        );
    }
}

#[test]
fn bind_failure_is_fatal() {
    let mut l = AcceptLoop::new(AcceptPolicy::Continue);
    assert_eq!(l.phase(), LoopPhase::Binding);
    assert_eq!(l.on_event(LoopEvent::BindFailed), LoopAction::Stop(Fatal::Bind));
    assert_eq!(l.phase(), LoopPhase::Failed(Fatal::Bind));
    assert_eq!(l.on_event(LoopEvent::Accepted), LoopAction::Stop(Fatal::Bind));
}

#[test]
fn accepted_connections_are_spawned_and_loop_goes_on() {
    let mut l = AcceptLoop::new(AcceptPolicy::default());
    assert_eq!(l.on_event(LoopEvent::Bound), LoopAction::Accept);
    for _ in 0..5 {
        assert_eq!(l.on_event(LoopEvent::Accepted), LoopAction::Spawn);
    }
    assert_eq!(l.phase(), LoopPhase::Listening);
}

#[test]
fn accept_failure_continues_by_default() {
    assert_eq!(AcceptPolicy::default(), AcceptPolicy::Continue);
    let mut l = AcceptLoop::new(AcceptPolicy::default());
    l.on_event(LoopEvent::Bound);
    assert_eq!(l.on_event(LoopEvent::AcceptFailed), LoopAction::Accept);
    assert_eq!(l.on_event(LoopEvent::Accepted), LoopAction::Spawn);
    assert_eq!(l.phase(), LoopPhase::Listening);
}

#[test]
fn accept_failure_stops_under_stop_policy() {
    let mut l = AcceptLoop::new(AcceptPolicy::Stop);
    l.on_event(LoopEvent::Bound);
    assert_eq!(l.on_event(LoopEvent::Accepted), LoopAction::Spawn);
    assert_eq!(l.on_event(LoopEvent::AcceptFailed), LoopAction::Stop(Fatal::Accept));
    assert_eq!(l.policy(), AcceptPolicy::Stop);
}
