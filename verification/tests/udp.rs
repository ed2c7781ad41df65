use libutp_rs::{
    check_timeouts, EventLoop, LoopAction, LoopEvent, Readiness, StopFlag, TimeoutAction,
    TimeoutEvent,
};

fn says(readable: bool, writable: bool) -> Readiness {
    Readiness { readable, writable }
}

fn step(l: &mut EventLoop, flag: &StopFlag, event: LoopEvent<i32>) -> LoopAction<i32> {
    l.run(flag, event)
}

#[test]
fn a_flag_once_set_stays_set() {
    let mut flag = StopFlag::new();
    assert!(!flag.is_set());
    flag.set();
    assert!(flag.is_set());
    flag.set();
    assert!(flag.is_set());
}

#[test]
fn a_round_reads_then_writes() {
    let flag = StopFlag::new();
    let mut l = EventLoop::new();
    assert_eq!(step(&mut l, &flag, LoopEvent::Round), LoopAction::Poll);
    let events = LoopEvent::Polled(vec![says(true, true)]);
    assert_eq!(step(&mut l, &flag, events), LoopAction::Read);
    assert_eq!(step(&mut l, &flag, LoopEvent::Read(true)), LoopAction::Write);
    assert_eq!(step(&mut l, &flag, LoopEvent::Written), LoopAction::Round);
    assert_eq!(step(&mut l, &flag, LoopEvent::Round), LoopAction::Poll);
    assert_eq!(step(&mut l, &flag, LoopEvent::Polled(vec![])), LoopAction::Round);
}

#[test]
fn every_event_of_a_poll_counts() {
    let flag = StopFlag::new();
    for events in [
        vec![says(true, false), says(false, true)],
        vec![says(false, true), says(true, false)],
        vec![says(false, false), says(true, true), says(false, false)],
    ] {
        let mut l = EventLoop::new();
        assert_eq!(step(&mut l, &flag, LoopEvent::Polled(events)), LoopAction::Read);
        assert_eq!(step(&mut l, &flag, LoopEvent::Read(true)), LoopAction::Write);
        assert_eq!(step(&mut l, &flag, LoopEvent::Written), LoopAction::Round);
        assert_eq!(step(&mut l, &flag, LoopEvent::Polled(vec![])), LoopAction::Round);
    }
}

#[test]
fn an_unfinished_read_is_repeated() {
    let flag = StopFlag::new();
    let mut l = EventLoop::new();
    let events = LoopEvent::Polled(vec![says(true, false)]);
    assert_eq!(step(&mut l, &flag, events), LoopAction::Read);
    assert_eq!(step(&mut l, &flag, LoopEvent::Read(false)), LoopAction::Round);
    assert_eq!(step(&mut l, &flag, LoopEvent::Round), LoopAction::Poll);
    assert_eq!(step(&mut l, &flag, LoopEvent::Polled(vec![])), LoopAction::Read);
    assert_eq!(step(&mut l, &flag, LoopEvent::Read(false)), LoopAction::Round);
    let events = LoopEvent::Polled(vec![says(false, true)]);
    assert_eq!(step(&mut l, &flag, events), LoopAction::Read);
    assert_eq!(step(&mut l, &flag, LoopEvent::Read(true)), LoopAction::Write);
}

#[test]
fn a_failed_poll_is_reported_and_the_round_goes_on() {
    let flag = StopFlag::new();
    let mut l = EventLoop::new();
    assert_eq!(step(&mut l, &flag, LoopEvent::PollFailed(4)), LoopAction::Report(4));
    assert_eq!(step(&mut l, &flag, LoopEvent::Reported), LoopAction::Round);
    assert_eq!(step(&mut l, &flag, LoopEvent::Round), LoopAction::Poll);
    let events = LoopEvent::Polled(vec![says(true, false)]);
    assert_eq!(step(&mut l, &flag, events), LoopAction::Read);
    assert_eq!(step(&mut l, &flag, LoopEvent::Read(false)), LoopAction::Round);
    assert_eq!(step(&mut l, &flag, LoopEvent::PollFailed(5)), LoopAction::Report(5));
    assert_eq!(step(&mut l, &flag, LoopEvent::Reported), LoopAction::Read);
}

#[test]
fn a_set_flag_ends_the_loop_at_the_next_round() {
    let mut flag = StopFlag::new();
    let mut l = EventLoop::new();
    flag.set();
    let events = LoopEvent::Polled(vec![says(false, true)]);
    assert_eq!(step(&mut l, &flag, events), LoopAction::Write);
    assert_eq!(step(&mut l, &flag, LoopEvent::Written), LoopAction::Round);
    assert_eq!(step(&mut l, &flag, LoopEvent::Round), LoopAction::End);
}

#[test]
fn timeouts_are_checked_every_half_second() {
    let mut flag = StopFlag::new();
    assert_eq!(check_timeouts(&flag, TimeoutEvent::Round), TimeoutAction::Sleep(500));
    assert_eq!(check_timeouts(&flag, TimeoutEvent::Slept), TimeoutAction::Check);
    assert_eq!(check_timeouts(&flag, TimeoutEvent::Checked), TimeoutAction::Round);
    flag.set();
    assert_eq!(check_timeouts(&flag, TimeoutEvent::Slept), TimeoutAction::Check);
    assert_eq!(check_timeouts(&flag, TimeoutEvent::Checked), TimeoutAction::Round);
    assert_eq!(check_timeouts(&flag, TimeoutEvent::Round), TimeoutAction::End);
}
