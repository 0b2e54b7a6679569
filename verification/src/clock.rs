use vstd::prelude::*;
use vstd::std_specs::convert::FromSpecImpl;
use vstd::std_specs::convert::TryFromSpecImpl;

verus! {

/// Identifies a clock.
#[derive(Clone, Copy, Debug, PartialEq, Eq, Structural)]
pub enum ClockId {
    /// The clock that measures real time. Its value zero is 1970-01-01T00:00:00Z.
    RealTime,

    /// A clock that cannot be set and never jumps backwards. Its epoch is undefined:
    /// two of its values can be compared with each other, and neither says what time it is.
    Monotonic,

    /// The processor time used by the current process.
    ProcessCpuTime,

    /// The processor time used by the current thread.
    ThreadCpuTime,
}

impl ClockId {
    /// The number that stands for this variant on the wire.
    pub open spec fn code(self) -> u32 {
        match self {
            ClockId::RealTime => 0,
            ClockId::Monotonic => 1,
            ClockId::ProcessCpuTime => 2,
            ClockId::ThreadCpuTime => 3,
        }
    }

    /// The variant that a wire number stands for, where there is one.
    pub open spec fn decode(raw: u32) -> Option<ClockId> {
        match raw {
            0 => Some(ClockId::RealTime),
            1 => Some(ClockId::Monotonic),
            2 => Some(ClockId::ProcessCpuTime),
            3 => Some(ClockId::ThreadCpuTime),
            _ => None,
        }
    }

    /// Encodes the variant. Every variant has a number, and no two share one.
    pub fn to_raw(self) -> (r: u32)
        ensures
            r == self.code(),
            r <= 3,
            ClockId::decode(r) == Some(self),
    {
        match self {
            ClockId::RealTime => 0,
            ClockId::Monotonic => 1,
            ClockId::ProcessCpuTime => 2,
            ClockId::ThreadCpuTime => 3,
        }
    }

    /// Decodes a wire number. A number above 3 stands for no variant and is
    /// rejected with `None`; it is never clamped or replaced by a default.
    pub fn from_raw(raw: u32) -> (r: Option<ClockId>)
        ensures
            r == ClockId::decode(raw),
            r is Some <==> raw <= 3,
            r matches Some(v) ==> v.code() == raw,
    {
        match raw {
            0 => Some(ClockId::RealTime),
            1 => Some(ClockId::Monotonic),
            2 => Some(ClockId::ProcessCpuTime),
            3 => Some(ClockId::ThreadCpuTime),
            _ => None,
        }
    }

    /// Decoding the number of a variant gives that variant back.
    pub proof fn lemma_decode_code(v: ClockId)
        ensures
            v.code() <= 3,
            ClockId::decode(v.code()) == Some(v),
    {
    }

    /// Exactly the numbers up to 3 decode, each to the variant that encodes to it.
    pub proof fn lemma_code_decode(raw: u32)
        ensures
            ClockId::decode(raw) is Some <==> raw <= 3,
            ClockId::decode(raw) matches Some(v) ==> v.code() == raw,
    {
    }

    /// Two variants with the same number are the same variant.
    pub proof fn lemma_code_injective(a: ClockId, b: ClockId)
        requires
            a.code() == b.code(),
        ensures
            a == b,
    {
        ClockId::lemma_decode_code(a);
        ClockId::lemma_decode_code(b);
    }
}

impl From<ClockId> for u32 {
    fn from(value: ClockId) -> (r: u32) {
        value.to_raw()
    }
}

impl FromSpecImpl<ClockId> for u32 {
    open spec fn obeys_from_spec() -> bool {
        true
    }

    open spec fn from_spec(value: ClockId) -> u32 {
        value.code()
    }
}

impl TryFrom<u32> for ClockId {
    type Error = ();

    fn try_from(raw: u32) -> (r: Result<ClockId, ()>) {
        match ClockId::from_raw(raw) {
            Some(v) => Ok(v),
            None => Err(()),
        }
    }
}

impl TryFromSpecImpl<u32> for ClockId {
    open spec fn obeys_try_from_spec() -> bool {
        true
    }

    open spec fn try_from_spec(raw: u32) -> Result<ClockId, ()> {
        match ClockId::decode(raw) {
            Some(v) => Ok(v),
            None => Err(()),
        }
    }
}

/// A point in time or a span of time, in nanoseconds.
///
/// For the real-time clock it counts from the epoch; for the monotonic clock the
/// starting point is unknown.
#[derive(Clone, Copy, Debug, PartialEq, Eq, Structural)]
pub struct Timestamp(u64);

impl Timestamp {
    /// The number of nanoseconds.
    pub closed spec fn view(self) -> u64 {
        self.0
    }

    /// Two values with the same raw number are the same value.
    pub proof fn lemma_view_injective(a: Timestamp, b: Timestamp)
        requires
            a@ == b@,
        ensures
            a == b,
    {
    }

    /// The number of nanoseconds in one second.
    pub const NANOS_PER_SEC: u64 = 1_000_000_000;

    /// The largest number of whole seconds whose nanoseconds fit in 64 bits.
    pub const MAX_SEC: u64 = 18_446_744_073;

    /// A timestamp of the given number of nanoseconds.
    pub fn from_nanos(nanos: u64) -> (r: Timestamp)
        ensures
            r@ == nanos,
    {
        Timestamp(nanos)
    }

    /// A timestamp of the given number of seconds. The seconds must be few enough for
    /// their nanoseconds to fit in 64 bits.
    pub fn from_sec(sec: u64) -> (r: Timestamp)
        requires
            sec <= Timestamp::MAX_SEC,
        ensures
            r@ == sec * 1_000_000_000,
    {
        Timestamp(sec * Timestamp::NANOS_PER_SEC)
    }

    /// A timestamp of the given number of seconds, or `None` where their nanoseconds
    /// do not fit in 64 bits.
    pub fn checked_from_sec(sec: u64) -> (r: Option<Timestamp>)
        ensures
            r is Some <==> sec * 1_000_000_000 <= u64::MAX,
            r is Some <==> sec <= Timestamp::MAX_SEC,
            r matches Some(t) ==> t@ == sec * 1_000_000_000,
    {
        if sec <= Timestamp::MAX_SEC {
            Some(Timestamp::from_sec(sec))
        } else {
            None
        }
    }

    /// The number of nanoseconds.
    pub fn as_nanos(&self) -> (r: u64)
        ensures
            r == self@,
    {
        self.0
    }
}

impl From<u64> for Timestamp {
    fn from(raw: u64) -> (r: Timestamp)
        ensures
            r@ == raw,
    {
        Timestamp::from_nanos(raw)
    }
}

impl FromSpecImpl<u64> for Timestamp {
    open spec fn obeys_from_spec() -> bool {
        true
    }

    closed spec fn from_spec(raw: u64) -> Timestamp {
        Timestamp(raw)
    }
}

impl From<Timestamp> for u64 {
    fn from(value: Timestamp) -> (r: u64) {
        value.as_nanos()
    }
}

impl FromSpecImpl<Timestamp> for u64 {
    open spec fn obeys_from_spec() -> bool {
        true
    }

    open spec fn from_spec(value: Timestamp) -> u64 {
        value@
    }
}

} // verus!
