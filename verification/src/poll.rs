use vstd::prelude::*;
use vstd::std_specs::convert::FromSpecImpl;
use vstd::std_specs::convert::TryFromSpecImpl;
use crate::clock::{ClockId, Timestamp};
use crate::errno::ErrNo;
use crate::file::{FileSize, FileType};
use crate::ident::Fd;

verus! {

/// The kind of condition that a subscription waits for and that an event reports.
#[derive(Clone, Copy, Debug, PartialEq, Eq, Structural)]
pub enum EventType {
    /// The clock of the subscription has reached the time asked for.
    Clock,

    /// The descriptor of the subscription has data to read. A regular file always has.
    FdRead,

    /// The descriptor of the subscription has room to write. A regular file always has.
    FdWrite,
}

impl EventType {
    /// The number that stands for this variant on the wire.
    pub open spec fn code(self) -> u8 {
        match self {
            EventType::Clock => 0,
            EventType::FdRead => 1,
            EventType::FdWrite => 2,
        }
    }

    /// The variant that a wire number stands for, where there is one.
    pub open spec fn decode(raw: u8) -> Option<EventType> {
        match raw {
            0 => Some(EventType::Clock),
            1 => Some(EventType::FdRead),
            2 => Some(EventType::FdWrite),
            _ => None,
        }
    }

    /// Encodes the variant. Every variant has a number, and no two share one.
    pub fn to_raw(self) -> (r: u8)
        ensures
            r == self.code(),
            r <= 2,
            EventType::decode(r) == Some(self),
    {
        match self {
            EventType::Clock => 0,
            EventType::FdRead => 1,
            EventType::FdWrite => 2,
        }
    }

    /// Decodes a wire number. A number above 2 stands for no variant and is
    /// rejected with `None`; it is never clamped or replaced by a default.
    pub fn from_raw(raw: u8) -> (r: Option<EventType>)
        ensures
            r == EventType::decode(raw),
            r is Some <==> raw <= 2,
            r matches Some(v) ==> v.code() == raw,
    {
        match raw {
            0 => Some(EventType::Clock),
            1 => Some(EventType::FdRead),
            2 => Some(EventType::FdWrite),
            _ => None,
        }
    }

    /// Decoding the number of a variant gives that variant back.
    pub proof fn lemma_decode_code(v: EventType)
        ensures
            v.code() <= 2,
            EventType::decode(v.code()) == Some(v),
    {
    }

    /// Exactly the numbers up to 2 decode, each to the variant that encodes to it.
    pub proof fn lemma_code_decode(raw: u8)
        ensures
            EventType::decode(raw) is Some <==> raw <= 2,
            EventType::decode(raw) matches Some(v) ==> v.code() == raw,
    {
    }

    /// Two variants with the same number are the same variant.
    pub proof fn lemma_code_injective(a: EventType, b: EventType)
        requires
            a.code() == b.code(),
        ensures
            a == b,
    {
        EventType::lemma_decode_code(a);
        EventType::lemma_decode_code(b);
    }
}

impl From<EventType> for u8 {
    fn from(value: EventType) -> (r: u8) {
        value.to_raw()
    }
}

impl FromSpecImpl<EventType> for u8 {
    open spec fn obeys_from_spec() -> bool {
        true
    }

    open spec fn from_spec(value: EventType) -> u8 {
        value.code()
    }
}

impl TryFrom<u8> for EventType {
    type Error = ();

    fn try_from(raw: u8) -> (r: Result<EventType, ()>) {
        match EventType::from_raw(raw) {
            Some(v) => Ok(v),
            None => Err(()),
        }
    }
}

impl TryFromSpecImpl<u8> for EventType {
    open spec fn obeys_try_from_spec() -> bool {
        true
    }

    open spec fn try_from_spec(raw: u8) -> Result<EventType, ()> {
        match EventType::decode(raw) {
            Some(v) => Ok(v),
            None => Err(()),
        }
    }
}

/// What an event says of a descriptor beside its readiness.
#[derive(Clone, Copy, Debug, PartialEq, Eq, Structural)]
pub enum EventRwFlags {
    /// Nothing to report.
    Empty,

    /// The other end of the stream has closed. This is no error: the descriptor may be
    /// ready now and still report the end of the stream at its next use.
    Hangup,
}

impl EventRwFlags {
    /// The number that stands for this variant on the wire.
    pub open spec fn code(self) -> u16 {
        match self {
            EventRwFlags::Empty => 0,
            EventRwFlags::Hangup => 1,
        }
    }

    /// The variant that a wire number stands for, where there is one.
    pub open spec fn decode(raw: u16) -> Option<EventRwFlags> {
        match raw {
            0 => Some(EventRwFlags::Empty),
            1 => Some(EventRwFlags::Hangup),
            _ => None,
        }
    }

    /// Encodes the variant. Every variant has a number, and no two share one.
    pub fn to_raw(self) -> (r: u16)
        ensures
            r == self.code(),
            r <= 1,
            EventRwFlags::decode(r) == Some(self),
    {
        match self {
            EventRwFlags::Empty => 0,
            EventRwFlags::Hangup => 1,
        }
    }

    /// Decodes a wire number. A number above 1 stands for no variant and is
    /// rejected with `None`; it is never clamped or replaced by a default.
    pub fn from_raw(raw: u16) -> (r: Option<EventRwFlags>)
        ensures
            r == EventRwFlags::decode(raw),
            r is Some <==> raw <= 1,
            r matches Some(v) ==> v.code() == raw,
    {
        match raw {
            0 => Some(EventRwFlags::Empty),
            1 => Some(EventRwFlags::Hangup),
            _ => None,
        }
    }

    /// Decoding the number of a variant gives that variant back.
    pub proof fn lemma_decode_code(v: EventRwFlags)
        ensures
            v.code() <= 1,
            EventRwFlags::decode(v.code()) == Some(v),
    {
    }

    /// Exactly the numbers up to 1 decode, each to the variant that encodes to it.
    pub proof fn lemma_code_decode(raw: u16)
        ensures
            EventRwFlags::decode(raw) is Some <==> raw <= 1,
            EventRwFlags::decode(raw) matches Some(v) ==> v.code() == raw,
    {
    }

    /// Two variants with the same number are the same variant.
    pub proof fn lemma_code_injective(a: EventRwFlags, b: EventRwFlags)
        requires
            a.code() == b.code(),
        ensures
            a == b,
    {
        EventRwFlags::lemma_decode_code(a);
        EventRwFlags::lemma_decode_code(b);
    }
}

impl From<EventRwFlags> for u16 {
    fn from(value: EventRwFlags) -> (r: u16) {
        value.to_raw()
    }
}

impl FromSpecImpl<EventRwFlags> for u16 {
    open spec fn obeys_from_spec() -> bool {
        true
    }

    open spec fn from_spec(value: EventRwFlags) -> u16 {
        value.code()
    }
}

impl TryFrom<u16> for EventRwFlags {
    type Error = ();

    fn try_from(raw: u16) -> (r: Result<EventRwFlags, ()>) {
        match EventRwFlags::from_raw(raw) {
            Some(v) => Ok(v),
            None => Err(()),
        }
    }
}

impl TryFromSpecImpl<u16> for EventRwFlags {
    open spec fn obeys_try_from_spec() -> bool {
        true
    }

    open spec fn try_from_spec(raw: u16) -> Result<EventRwFlags, ()> {
        match EventRwFlags::decode(raw) {
            Some(v) => Ok(v),
            None => Err(()),
        }
    }
}

/// A value that a subscription carries and that its event gives back unchanged.
pub type UserData = u64;

/// The flags of a clock subscription.
pub type SubClockFlags = u16;

/// Waits until a clock reaches a time: the event comes no earlier than `timeout`, and
/// `precision` says how much later it may come. A time that has already passed is no
/// error; the event is then due at the next poll.
#[derive(Clone, Copy, Debug, PartialEq, Eq)]
pub struct SubscriptionClock {
    /// The clock to watch.
    pub clock_id: ClockId,
    /// The time to wait for.
    pub timeout: Timestamp,
    /// How far after `timeout` the event may come.
    pub precision: Timestamp,
    /// How `timeout` is to be read.
    pub flags: SubClockFlags,
}

/// Waits until a descriptor is ready for reading or for writing.
#[derive(Clone, Copy, Debug, PartialEq, Eq)]
pub struct SubscriptionFdReadwrite {
    /// The descriptor to watch.
    pub fd: Fd,
}

/// What a subscription waits for. Each case waits for one condition on one clock or
/// one descriptor; to wait for several, submit several subscriptions.
#[derive(Clone, Copy, Debug, PartialEq, Eq)]
pub enum SubscriptionUnion {
    /// Waits for a clock.
    Clock(SubscriptionClock),
    /// Waits for a descriptor to have data to read.
    FdRead(SubscriptionFdReadwrite),
    /// Waits for a descriptor to have room to write.
    FdWrite(SubscriptionFdReadwrite),
}

impl SubscriptionUnion {
    /// The kind of event that answers this case.
    pub open spec fn spec_event_type(&self) -> EventType {
        match self {
            SubscriptionUnion::Clock(_) => EventType::Clock,
            SubscriptionUnion::FdRead(_) => EventType::FdRead,
            SubscriptionUnion::FdWrite(_) => EventType::FdWrite,
        }
    }

    /// The descriptor that this case waits on, if it waits on one.
    pub open spec fn spec_fd(&self) -> Option<Fd> {
        match self {
            SubscriptionUnion::Clock(_) => None,
            SubscriptionUnion::FdRead(rw) => Some(rw.fd),
            SubscriptionUnion::FdWrite(rw) => Some(rw.fd),
        }
    }

    /// The kind of event that answers this case.
    #[verifier::when_used_as_spec(spec_event_type)]
    pub fn event_type(&self) -> (r: EventType)
        ensures
            r == self.spec_event_type(),
    {
        match self {
            SubscriptionUnion::Clock(_) => EventType::Clock,
            SubscriptionUnion::FdRead(_) => EventType::FdRead,
            SubscriptionUnion::FdWrite(_) => EventType::FdWrite,
        }
    }

    /// The descriptor that this case waits on, if it waits on one.
    #[verifier::when_used_as_spec(spec_fd)]
    pub fn fd(&self) -> (r: Option<Fd>)
        ensures
            r == self.spec_fd(),
            r is Some <==> self.spec_event_type() != EventType::Clock,
    {
        match self {
            SubscriptionUnion::Clock(_) => None,
            SubscriptionUnion::FdRead(rw) => Some(rw.fd),
            SubscriptionUnion::FdWrite(rw) => Some(rw.fd),
        }
    }
}

/// A request to be told when a clock reaches a time or a descriptor becomes ready.
#[derive(Clone, Copy, Debug, PartialEq, Eq)]
pub struct Subscription {
    /// Given back unchanged in the event. It alone tells which subscription an event
    /// answers: the order of the events says nothing.
    pub userdata: UserData,
    /// What the subscription waits for.
    pub u: SubscriptionUnion,
}

impl Subscription {
    /// The event that answers this subscription with the given result.
    ///
    /// The state of the descriptor is part of the event exactly where the
    /// subscription waits on a descriptor; for a clock it is left out.
    pub open spec fn spec_event(&self, error: ErrNo, state: EventFdState) -> Event {
        Event {
            user_data: self.userdata,
            error,
            ty: self.u.spec_event_type(),
            fd_state: if self.u is Clock {
                None
            } else {
                Some(state)
            },
        }
    }

    /// A subscription to a clock.
    pub fn clock(
        userdata: UserData,
        clock_id: ClockId,
        timeout: Timestamp,
        precision: Timestamp,
        flags: SubClockFlags,
    ) -> (r: Subscription)
        ensures
            r.userdata == userdata,
            r.u == SubscriptionUnion::Clock(
                SubscriptionClock { clock_id, timeout, precision, flags },
            ),
    {
        Subscription {
            userdata,
            u: SubscriptionUnion::Clock(SubscriptionClock { clock_id, timeout, precision, flags }),
        }
    }

    /// A subscription to the readability of a descriptor.
    pub fn fd_read(userdata: UserData, fd: Fd) -> (r: Subscription)
        ensures
            r.userdata == userdata,
            r.u == SubscriptionUnion::FdRead(SubscriptionFdReadwrite { fd }),
    {
        Subscription { userdata, u: SubscriptionUnion::FdRead(SubscriptionFdReadwrite { fd }) }
    }

    /// A subscription to the writability of a descriptor.
    pub fn fd_write(userdata: UserData, fd: Fd) -> (r: Subscription)
        ensures
            r.userdata == userdata,
            r.u == SubscriptionUnion::FdWrite(SubscriptionFdReadwrite { fd }),
    {
        Subscription { userdata, u: SubscriptionUnion::FdWrite(SubscriptionFdReadwrite { fd }) }
    }

    /// The kind of event that answers this subscription.
    pub fn event_type(&self) -> (r: EventType)
        ensures
            r == self.u.spec_event_type(),
    {
        self.u.event_type()
    }

    /// Whether the subscription is ready at once on a descriptor of the given type:
    /// it waits on a descriptor, and a descriptor of that type never blocks.
    pub fn is_immediately_ready(&self, file_type: FileType) -> (r: bool)
        ensures
            r == (!(self.u is Clock) && file_type == FileType::RegularFile),
    {
        match self.u {
            SubscriptionUnion::Clock(_) => false,
            _ => file_type.is_always_ready(),
        }
    }

    /// Builds the event that answers this subscription with the given result.
    #[verifier::when_used_as_spec(spec_event)]
    pub fn event(&self, error: ErrNo, state: EventFdState) -> (r: Event)
        ensures
            r == self.spec_event(error, state),
            r.well_formed(),
            r.spec_answers(self),
    {
        let fd_state = match self.u {
            SubscriptionUnion::Clock(_) => None,
            _ => Some(state),
        };
        Event { user_data: self.userdata, error, ty: self.u.event_type(), fd_state }
    }
}

/// What an event says of the descriptor that it reports on.
#[derive(Clone, Copy, Debug, PartialEq, Eq)]
pub struct EventFdState {
    /// The number of bytes that can be read or written.
    pub file_size: FileSize,
    /// Whether the other end has closed.
    pub flags: EventRwFlags,
}

/// The answer to a subscription.
#[derive(Clone, Copy, Debug, PartialEq, Eq)]
pub struct Event {
    /// The `userdata` of the subscription that this event answers.
    pub user_data: UserData,
    /// Whether the wait succeeded, and if not, why.
    pub error: ErrNo,
    /// The kind of condition that is reported.
    pub ty: EventType,
    /// The state of the descriptor: present for `FdRead` and `FdWrite`, absent for `Clock`.
    pub fd_state: Option<EventFdState>,
}

impl Event {
    /// The rule that every event obeys: it reports on a descriptor exactly where it
    /// answers a wait on one.
    pub open spec fn well_formed(&self) -> bool {
        self.fd_state is Some <==> self.ty != EventType::Clock
    }

    /// Whether this event answers the subscription: it carries the subscription's
    /// user data and reports the kind of condition that the subscription waits for.
    pub open spec fn spec_answers(&self, sub: &Subscription) -> bool {
        self.user_data == sub.userdata && self.ty == sub.u.spec_event_type()
    }

    /// Whether the event reports that the other end has closed.
    pub open spec fn spec_is_hangup(&self) -> bool {
        self.fd_state matches Some(state) && state.flags == EventRwFlags::Hangup
    }

    /// Builds an event from its parts, or rejects them with `None` where they break
    /// the rule on the state of the descriptor.
    pub fn new(
        user_data: UserData,
        error: ErrNo,
        ty: EventType,
        fd_state: Option<EventFdState>,
    ) -> (r: Option<Event>)
        ensures
            r is Some <==> (fd_state is Some <==> ty != EventType::Clock),
            r matches Some(ev) ==> ev == (Event { user_data, error, ty, fd_state })
                && ev.well_formed(),
    {
        let ev = Event { user_data, error, ty, fd_state };
        if ev.is_well_formed() {
            Some(ev)
        } else {
            None
        }
    }

    /// Whether the event obeys the rule on the state of the descriptor.
    #[verifier::when_used_as_spec(well_formed)]
    pub fn is_well_formed(&self) -> (r: bool)
        ensures
            r == self.well_formed(),
    {
        match self.ty {
            EventType::Clock => self.fd_state.is_none(),
            _ => self.fd_state.is_some(),
        }
    }

    /// Whether this event answers the subscription.
    #[verifier::when_used_as_spec(spec_answers)]
    pub fn answers(&self, sub: &Subscription) -> (r: bool)
        ensures
            r == self.spec_answers(sub),
    {
        self.user_data == sub.userdata && self.ty == sub.u.event_type()
    }

    /// Whether the wait succeeded. The error code alone decides; a hangup does not
    /// make a successful event a failure.
    pub fn is_success(&self) -> (r: bool)
        ensures
            r == (self.error == ErrNo::Success),
    {
        self.error.is_success()
    }

    /// Whether the event reports that the other end has closed.
    #[verifier::when_used_as_spec(spec_is_hangup)]
    pub fn is_hangup(&self) -> (r: bool)
        ensures
            r == self.spec_is_hangup(),
            r && self.well_formed() ==> self.ty != EventType::Clock,
    {
        match self.fd_state {
            Some(state) => state.flags == EventRwFlags::Hangup,
            None => false,
        }
    }

    /// An event that obeys the rule and answers a subscription reports the state of
    /// a descriptor if the subscription waits on one, and reports none if the
    /// subscription waits on a clock.
    pub proof fn lemma_fd_state_follows_subscription(ev: Event, sub: Subscription)
        requires
            ev.well_formed(),
            ev.spec_answers(&sub),
        ensures
            sub.u is FdRead || sub.u is FdWrite ==> ev.fd_state is Some,
            sub.u is Clock ==> ev.fd_state is None,
    {
    }

    /// The event built for a subscription obeys the rule, answers the subscription
    /// and carries its user data and the result unchanged.
    pub proof fn lemma_built_event_answers(sub: Subscription, error: ErrNo, state: EventFdState)
        ensures
            sub.spec_event(error, state).well_formed(),
            sub.spec_event(error, state).spec_answers(&sub),
            sub.spec_event(error, state).user_data == sub.userdata,
            sub.spec_event(error, state).error == error,
            sub.u is Clock ==> sub.spec_event(error, state).fd_state is None,
            !(sub.u is Clock) ==> sub.spec_event(error, state).fd_state == Some(state),
    {
    }
}

} // verus!
