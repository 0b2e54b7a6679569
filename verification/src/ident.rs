use std::cmp::Ordering;
use vstd::prelude::*;
use vstd::std_specs::cmp::PartialOrdSpecImpl;
use vstd::std_specs::convert::FromSpecImpl;

verus! {

/// A descriptor number: an opaque handle to a file, a directory or a socket.
///
/// By convention 0, 1 and 2 are standard input, output and error. Numbers need not be
/// contiguous, and their order says nothing of the order in which they were handed out.
#[derive(Clone, Copy, Debug, PartialEq, Eq, Ord, Hash, Structural)]
pub struct Fd(pub u32);

impl Fd {
    /// The raw number.
    pub open spec fn view(self) -> u32 {
        self.0
    }

    /// Wraps a raw number. Every number is accepted.
    pub fn from_raw(raw: u32) -> (r: Fd)
        ensures
            r@ == raw,
    {
        Fd(raw)
    }

    /// The raw number, unchanged.
    pub fn to_raw(self) -> (r: u32)
        ensures
            r == self@,
    {
        self.0
    }

    /// The descriptor that is standard input by convention.
    pub const STDIN: u32 = 0;

    /// The descriptor that is standard output by convention.
    pub const STDOUT: u32 = 1;

    /// The descriptor that is standard error by convention.
    pub const STDERR: u32 = 2;
}

impl From<u32> for Fd {
    fn from(raw: u32) -> (r: Fd) {
        Fd::from_raw(raw)
    }
}

impl FromSpecImpl<u32> for Fd {
    open spec fn obeys_from_spec() -> bool {
        true
    }

    open spec fn from_spec(raw: u32) -> Fd {
        Fd(raw)
    }
}

impl From<Fd> for u32 {
    fn from(value: Fd) -> (r: u32) {
        value.to_raw()
    }
}

impl FromSpecImpl<Fd> for u32 {
    open spec fn obeys_from_spec() -> bool {
        true
    }

    open spec fn from_spec(value: Fd) -> u32 {
        value@
    }
}

impl PartialOrd for Fd {
    fn partial_cmp(&self, other: &Fd) -> (r: Option<Ordering>) {
        if self.0 < other.0 {
            Some(Ordering::Less)
        } else if self.0 == other.0 {
            Some(Ordering::Equal)
        } else {
            Some(Ordering::Greater)
        }
    }
}

impl PartialOrdSpecImpl for Fd {
    open spec fn obeys_partial_cmp_spec() -> bool {
        true
    }

    /// Values are ordered as their raw numbers are.
    open spec fn partial_cmp_spec(&self, other: &Fd) -> Option<Ordering> {
        if self@ < other@ {
            Some(Ordering::Less)
        } else if self@ == other@ {
            Some(Ordering::Equal)
        } else {
            Some(Ordering::Greater)
        }
    }
}

/// The number of a device that holds a file system. Together with an `Inode` it
/// identifies a file: two files with the same device and the same inode are one file.
#[derive(Clone, Copy, Debug, PartialEq, Eq, Structural)]
pub struct Device(u64);

impl Device {
    /// The raw number.
    pub closed spec fn view(self) -> u64 {
        self.0
    }

    /// Wraps a raw number. Every number is accepted.
    pub fn from_raw(raw: u64) -> (r: Device)
        ensures
            r@ == raw,
    {
        Device(raw)
    }

    /// The raw number, unchanged.
    pub fn to_raw(self) -> (r: u64)
        ensures
            r == self@,
    {
        self.0
    }

    /// Two values with the same raw number are the same value.
    pub proof fn lemma_view_injective(a: Device, b: Device)
        requires
            a@ == b@,
        ensures
            a == b,
    {
    }
}

impl From<u64> for Device {
    fn from(raw: u64) -> (r: Device)
        ensures
            r@ == raw,
    {
        Device::from_raw(raw)
    }
}

impl FromSpecImpl<u64> for Device {
    open spec fn obeys_from_spec() -> bool {
        true
    }

    closed spec fn from_spec(raw: u64) -> Device {
        Device(raw)
    }
}

impl From<Device> for u64 {
    fn from(value: Device) -> (r: u64) {
        value.to_raw()
    }
}

impl FromSpecImpl<Device> for u64 {
    open spec fn obeys_from_spec() -> bool {
        true
    }

    open spec fn from_spec(value: Device) -> u64 {
        value@
    }
}

/// The serial number of a file, unique within its file system.
#[derive(Clone, Copy, Debug, PartialEq, Eq, Ord, Hash, Structural)]
pub struct Inode(pub u64);

impl Inode {
    /// The raw number.
    pub open spec fn view(self) -> u64 {
        self.0
    }

    /// Wraps a raw number. Every number is accepted.
    pub fn from_raw(raw: u64) -> (r: Inode)
        ensures
            r@ == raw,
    {
        Inode(raw)
    }

    /// The raw number, unchanged.
    pub fn to_raw(self) -> (r: u64)
        ensures
            r == self@,
    {
        self.0
    }
}

impl From<u64> for Inode {
    fn from(raw: u64) -> (r: Inode) {
        Inode::from_raw(raw)
    }
}

impl FromSpecImpl<u64> for Inode {
    open spec fn obeys_from_spec() -> bool {
        true
    }

    open spec fn from_spec(raw: u64) -> Inode {
        Inode(raw)
    }
}

impl From<Inode> for u64 {
    fn from(value: Inode) -> (r: u64) {
        value.to_raw()
    }
}

impl FromSpecImpl<Inode> for u64 {
    open spec fn obeys_from_spec() -> bool {
        true
    }

    open spec fn from_spec(value: Inode) -> u64 {
        value@
    }
}

impl PartialOrd for Inode {
    fn partial_cmp(&self, other: &Inode) -> (r: Option<Ordering>) {
        if self.0 < other.0 {
            Some(Ordering::Less)
        } else if self.0 == other.0 {
            Some(Ordering::Equal)
        } else {
            Some(Ordering::Greater)
        }
    }
}

impl PartialOrdSpecImpl for Inode {
    open spec fn obeys_partial_cmp_spec() -> bool {
        true
    }

    /// Values are ordered as their raw numbers are.
    open spec fn partial_cmp_spec(&self, other: &Inode) -> Option<Ordering> {
        if self@ < other@ {
            Some(Ordering::Less)
        } else if self@ == other@ {
            Some(Ordering::Equal)
        } else {
            Some(Ordering::Greater)
        }
    }
}

/// A position in the listing of a directory. The value 0 stands for the start of the
/// directory; no other value has a meaning of its own.
#[derive(Clone, Copy, Debug, PartialEq, Eq, Structural)]
pub struct DirCookie(pub u64);

impl DirCookie {
    /// The raw number.
    pub open spec fn view(self) -> u64 {
        self.0
    }

    /// Wraps a raw number. Every number is accepted.
    pub fn from_raw(raw: u64) -> (r: DirCookie)
        ensures
            r@ == raw,
    {
        DirCookie(raw)
    }

    /// The raw number, unchanged.
    pub fn to_raw(self) -> (r: u64)
        ensures
            r == self@,
    {
        self.0
    }

    /// The position of the first entry of a directory.
    pub fn start() -> (r: DirCookie)
        ensures
            r@ == 0,
            r.is_start(),
    {
        DirCookie(0)
    }

    /// Whether this is the position of the first entry.
    pub open spec fn is_start(self) -> bool {
        self@ == 0
    }
}

impl From<u64> for DirCookie {
    fn from(raw: u64) -> (r: DirCookie) {
        DirCookie::from_raw(raw)
    }
}

impl FromSpecImpl<u64> for DirCookie {
    open spec fn obeys_from_spec() -> bool {
        true
    }

    open spec fn from_spec(raw: u64) -> DirCookie {
        DirCookie(raw)
    }
}

impl From<DirCookie> for u64 {
    fn from(value: DirCookie) -> (r: u64) {
        value.to_raw()
    }
}

impl FromSpecImpl<DirCookie> for u64 {
    open spec fn obeys_from_spec() -> bool {
        true
    }

    open spec fn from_spec(value: DirCookie) -> u64 {
        value@
    }
}

} // verus!
