use wasi_types::{
    ClockId, ErrNo, Event, EventFdState, EventRwFlags, EventType, Fd, FileType, Subscription,
    SubscriptionClock, SubscriptionFdReadwrite, SubscriptionUnion, Timestamp,
};

fn state(file_size: u64, flags: EventRwFlags) -> EventFdState {
    EventFdState { file_size, flags }
}

#[test]
fn fd_read_event_reports_the_descriptor() {
    let sub = Subscription {
        userdata: 7,
        u: SubscriptionUnion::FdRead(SubscriptionFdReadwrite { fd: Fd(3) }),
    };
    let ev = sub.event(ErrNo::Success, state(512, EventRwFlags::Empty));
    assert!(ev.fd_state.is_some());
    assert_eq!(ev.fd_state, Some(state(512, EventRwFlags::Empty)));
    assert_eq!(ev.user_data, 7);
    assert_eq!(ev.ty, EventType::FdRead);
    assert_eq!(ev.error, ErrNo::Success);
    assert!(ev.is_well_formed());
    assert!(ev.answers(&sub));
}

#[test]
fn fd_write_event_reports_the_descriptor() {
    let sub = Subscription::fd_write(9, Fd(1));
    let ev = sub.event(ErrNo::Pipe, state(0, EventRwFlags::Hangup));
    assert!(ev.fd_state.is_some());
    assert_eq!(ev.ty, EventType::FdWrite);
    assert_eq!(ev.error, ErrNo::Pipe);
    assert!(ev.is_hangup());
    assert!(!ev.is_success());
    assert!(ev.answers(&sub));
}

#[test]
fn clock_event_reports_no_descriptor() {
    let sub = Subscription::clock(
        42,
        ClockId::Monotonic,
        Timestamp::from_sec(1),
        Timestamp::from_nanos(1000),
        0,
    );
    let ev = sub.event(ErrNo::Success, state(99, EventRwFlags::Hangup));
    assert!(ev.fd_state.is_none());
    assert_eq!(ev.ty, EventType::Clock);
    assert_eq!(ev.user_data, 42);
    assert!(ev.is_well_formed());
    assert!(ev.answers(&sub));
    assert!(!ev.is_hangup());
    assert!(ev.is_success());
}

#[test]
fn clock_subscription_in_the_past_is_an_ordinary_subscription() {
    let zero = Timestamp::from_nanos(0);
    let sub = Subscription::clock(1, ClockId::RealTime, zero, zero, 0);
    assert_eq!(sub.event_type(), EventType::Clock);
    assert_eq!(
        sub.u,
        SubscriptionUnion::Clock(SubscriptionClock {
            clock_id: ClockId::RealTime,
            timeout: Timestamp::from_nanos(0),
            precision: Timestamp::from_nanos(0),
            flags: 0,
        })
    );
    let ev = sub.event(ErrNo::Success, state(0, EventRwFlags::Empty));
    assert_eq!(ev.error, ErrNo::Success);
    assert_eq!(ev.ty, EventType::Clock);
}

#[test]
fn subscription_tags() {
    assert_eq!(Subscription::fd_read(0, Fd(5)).event_type(), EventType::FdRead);
    assert_eq!(Subscription::fd_write(0, Fd(5)).event_type(), EventType::FdWrite);
    assert_eq!(Subscription::fd_read(0, Fd(5)).u.fd(), Some(Fd(5)));
    assert_eq!(Subscription::fd_write(0, Fd(6)).u.fd(), Some(Fd(6)));
    let clock = Subscription::clock(
        0,
        ClockId::RealTime,
        Timestamp::from_nanos(5),
        Timestamp::from_nanos(1),
        1,
    );
    assert_eq!(clock.u.fd(), None);
    assert_eq!(clock.u.event_type(), EventType::Clock);
}

#[test]
fn new_event_checks_the_descriptor_state() {
    let st = state(10, EventRwFlags::Empty);
    assert_eq!(Event::new(1, ErrNo::Success, EventType::Clock, Some(st)), None);
    assert_eq!(Event::new(1, ErrNo::Success, EventType::FdRead, None), None);
    assert_eq!(Event::new(1, ErrNo::Success, EventType::FdWrite, None), None);
    assert_eq!(
        Event::new(1, ErrNo::Success, EventType::Clock, None),
        Some(Event { user_data: 1, error: ErrNo::Success, ty: EventType::Clock, fd_state: None })
    );
    assert_eq!(
        Event::new(2, ErrNo::Again, EventType::FdRead, Some(st)),
        Some(Event { user_data: 2, error: ErrNo::Again, ty: EventType::FdRead, fd_state: Some(st) })
    );
}

#[test]
fn malformed_events_are_recognised() {
    let st = state(10, EventRwFlags::Empty);
    let bad =
        Event { user_data: 1, error: ErrNo::Success, ty: EventType::Clock, fd_state: Some(st) };
    assert!(!bad.is_well_formed());
    let bad = Event { user_data: 1, error: ErrNo::Success, ty: EventType::FdRead, fd_state: None };
    assert!(!bad.is_well_formed());
}

#[test]
fn events_are_matched_by_user_data_and_kind() {
    let first = Subscription::fd_read(1, Fd(3));
    let second = Subscription::fd_read(2, Fd(3));
    let third = Subscription::fd_write(1, Fd(3));
    let ev = second.event(ErrNo::Success, state(1, EventRwFlags::Empty));
    assert!(!ev.answers(&first));
    assert!(ev.answers(&second));
    assert!(!ev.answers(&third));
}

#[test]
fn hangup_does_not_make_a_failure() {
    let sub = Subscription::fd_read(3, Fd(0));
    let ev = sub.event(ErrNo::Success, state(0, EventRwFlags::Hangup));
    assert!(ev.is_hangup());
    assert!(ev.is_success());
}

#[test]
fn regular_files_are_ready_at_once() {
    let read = Subscription::fd_read(1, Fd(4));
    let write = Subscription::fd_write(1, Fd(4));
    let tick = Timestamp::from_nanos(1);
    let clock = Subscription::clock(1, ClockId::RealTime, tick, tick, 0);
    assert!(read.is_immediately_ready(FileType::RegularFile));
    assert!(write.is_immediately_ready(FileType::RegularFile));
    assert!(!read.is_immediately_ready(FileType::SocketStream));
    assert!(!write.is_immediately_ready(FileType::Directory));
    assert!(!clock.is_immediately_ready(FileType::RegularFile));
}
