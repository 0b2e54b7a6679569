use vstd::prelude::*;
use vstd::std_specs::convert::FromSpecImpl;
use vstd::std_specs::convert::TryFromSpecImpl;

verus! {

/// A signal condition.
#[derive(Clone, Copy, Debug, PartialEq, Eq, Structural)]
pub enum Signal {
    /// No signal. The number is reserved.
    Reserved,

    /// Abnormal termination of the process.
    Abort,

    /// A real-time timer expired.
    Alarm,

    /// Access to an undefined part of a memory object.
    Bus,

    /// A child process ended, stopped or continued.
    Child,

    /// Continue, if stopped.
    Cont,

    /// An erroneous arithmetic operation.
    FP,

    /// The controlling terminal hung up.
    Hup,

    /// An illegal instruction.
    Ill,

    /// An interrupt from the terminal.
    Int,

    /// Kill. It cannot be caught or ignored.
    Kill,

    /// A write to a pipe that nobody reads.
    Pipe,

    /// A quit from the terminal.
    Quit,

    /// An invalid memory reference.
    Seg,

    /// Stop. It cannot be caught or ignored.
    Stop,

    /// A bad system call.
    Sys,

    /// A request to terminate.
    Term,

    /// A trace or breakpoint trap.
    Trap,

    /// A stop from the terminal.
    TStp,

    /// A background process tried to read from the terminal.
    TTIn,

    /// A background process tried to write to the terminal.
    TTOut,

    /// Urgent data is available at a socket.
    Urg,

    /// The first signal left to the user.
    Usr1,

    /// The second signal left to the user.
    Usr2,

    /// A virtual timer expired.
    VTAlrm,

    /// The limit on processor time was exceeded.
    XCpu,

    /// The limit on the size of a file was exceeded.
    XFSz,
}

impl Signal {
    /// The number that stands for this variant on the wire.
    pub open spec fn code(self) -> u8 {
        match self {
            Signal::Reserved => 0,
            Signal::Abort => 1,
            Signal::Alarm => 2,
            Signal::Bus => 3,
            Signal::Child => 4,
            Signal::Cont => 5,
            Signal::FP => 6,
            Signal::Hup => 7,
            Signal::Ill => 8,
            Signal::Int => 9,
            Signal::Kill => 10,
            Signal::Pipe => 11,
            Signal::Quit => 12,
            Signal::Seg => 13,
            Signal::Stop => 14,
            Signal::Sys => 15,
            Signal::Term => 16,
            Signal::Trap => 17,
            Signal::TStp => 18,
            Signal::TTIn => 19,
            Signal::TTOut => 20,
            Signal::Urg => 21,
            Signal::Usr1 => 22,
            Signal::Usr2 => 23,
            Signal::VTAlrm => 24,
            Signal::XCpu => 25,
            Signal::XFSz => 26,
        }
    }

    /// The variant that a wire number stands for, where there is one.
    pub open spec fn decode(raw: u8) -> Option<Signal> {
        match raw {
            0 => Some(Signal::Reserved),
            1 => Some(Signal::Abort),
            2 => Some(Signal::Alarm),
            3 => Some(Signal::Bus),
            4 => Some(Signal::Child),
            5 => Some(Signal::Cont),
            6 => Some(Signal::FP),
            7 => Some(Signal::Hup),
            8 => Some(Signal::Ill),
            9 => Some(Signal::Int),
            10 => Some(Signal::Kill),
            11 => Some(Signal::Pipe),
            12 => Some(Signal::Quit),
            13 => Some(Signal::Seg),
            14 => Some(Signal::Stop),
            15 => Some(Signal::Sys),
            16 => Some(Signal::Term),
            17 => Some(Signal::Trap),
            18 => Some(Signal::TStp),
            19 => Some(Signal::TTIn),
            20 => Some(Signal::TTOut),
            21 => Some(Signal::Urg),
            22 => Some(Signal::Usr1),
            23 => Some(Signal::Usr2),
            24 => Some(Signal::VTAlrm),
            25 => Some(Signal::XCpu),
            26 => Some(Signal::XFSz),
            _ => None,
        }
    }

    /// Encodes the variant. Every variant has a number, and no two share one.
    pub fn to_raw(self) -> (r: u8)
        ensures
            r == self.code(),
            r <= 26,
            Signal::decode(r) == Some(self),
    {
        match self {
            Signal::Reserved => 0,
            Signal::Abort => 1,
            Signal::Alarm => 2,
            Signal::Bus => 3,
            Signal::Child => 4,
            Signal::Cont => 5,
            Signal::FP => 6,
            Signal::Hup => 7,
            Signal::Ill => 8,
            Signal::Int => 9,
            Signal::Kill => 10,
            Signal::Pipe => 11,
            Signal::Quit => 12,
            Signal::Seg => 13,
            Signal::Stop => 14,
            Signal::Sys => 15,
            Signal::Term => 16,
            Signal::Trap => 17,
            Signal::TStp => 18,
            Signal::TTIn => 19,
            Signal::TTOut => 20,
            Signal::Urg => 21,
            Signal::Usr1 => 22,
            Signal::Usr2 => 23,
            Signal::VTAlrm => 24,
            Signal::XCpu => 25,
            Signal::XFSz => 26,
        }
    }

    /// Decodes a wire number. A number above 26 stands for no variant and is
    /// rejected with `None`; it is never clamped or replaced by a default.
    pub fn from_raw(raw: u8) -> (r: Option<Signal>)
        ensures
            r == Signal::decode(raw),
            r is Some <==> raw <= 26,
            r matches Some(v) ==> v.code() == raw,
    {
        match raw {
            0 => Some(Signal::Reserved),
            1 => Some(Signal::Abort),
            2 => Some(Signal::Alarm),
            3 => Some(Signal::Bus),
            4 => Some(Signal::Child),
            5 => Some(Signal::Cont),
            6 => Some(Signal::FP),
            7 => Some(Signal::Hup),
            8 => Some(Signal::Ill),
            9 => Some(Signal::Int),
            10 => Some(Signal::Kill),
            11 => Some(Signal::Pipe),
            12 => Some(Signal::Quit),
            13 => Some(Signal::Seg),
            14 => Some(Signal::Stop),
            15 => Some(Signal::Sys),
            16 => Some(Signal::Term),
            17 => Some(Signal::Trap),
            18 => Some(Signal::TStp),
            19 => Some(Signal::TTIn),
            20 => Some(Signal::TTOut),
            21 => Some(Signal::Urg),
            22 => Some(Signal::Usr1),
            23 => Some(Signal::Usr2),
            24 => Some(Signal::VTAlrm),
            25 => Some(Signal::XCpu),
            26 => Some(Signal::XFSz),
            _ => None,
        }
    }

    /// Decoding the number of a variant gives that variant back.
    pub proof fn lemma_decode_code(v: Signal)
        ensures
            v.code() <= 26,
            Signal::decode(v.code()) == Some(v),
    {
    }

    /// Exactly the numbers up to 26 decode, each to the variant that encodes to it.
    pub proof fn lemma_code_decode(raw: u8)
        ensures
            Signal::decode(raw) is Some <==> raw <= 26,
            Signal::decode(raw) matches Some(v) ==> v.code() == raw,
    {
    }

    /// Two variants with the same number are the same variant.
    pub proof fn lemma_code_injective(a: Signal, b: Signal)
        requires
            a.code() == b.code(),
        ensures
            a == b,
    {
        Signal::lemma_decode_code(a);
        Signal::lemma_decode_code(b);
    }
}

impl From<Signal> for u8 {
    fn from(value: Signal) -> (r: u8) {
        value.to_raw()
    }
}

impl FromSpecImpl<Signal> for u8 {
    open spec fn obeys_from_spec() -> bool {
        true
    }

    open spec fn from_spec(value: Signal) -> u8 {
        value.code()
    }
}

impl TryFrom<u8> for Signal {
    type Error = ();

    fn try_from(raw: u8) -> (r: Result<Signal, ()>) {
        match Signal::from_raw(raw) {
            Some(v) => Ok(v),
            None => Err(()),
        }
    }
}

impl TryFromSpecImpl<u8> for Signal {
    open spec fn obeys_try_from_spec() -> bool {
        true
    }

    open spec fn try_from_spec(raw: u8) -> Result<Signal, ()> {
        match Signal::decode(raw) {
            Some(v) => Ok(v),
            None => Err(()),
        }
    }
}

} // verus!
