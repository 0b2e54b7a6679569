//! Value types of a capability-based system-call interface between a sandboxed guest
//! and its host: error codes, rights masks, file metadata and poll descriptors.
//!
//! Every operation is a pure function of its arguments. Values that arrive as raw
//! integers from the other side of the boundary are decoded by functions that reject
//! what they do not know.

pub mod clock;
pub mod errno;
pub mod file;
pub mod flags;
pub mod ident;
pub mod poll;
pub mod rights;
pub mod signal;

pub use clock::{ClockId, Timestamp};
pub use errno::ErrNo;
pub use file::{
    Advice, DirEnt, ExitCode, FdStat, FileDelta, FileSize, FileStat, FileType, IoVec, LinkCount,
    Pointer, PreopenType, Prestat, Size, Whence,
};
pub use flags::{FdFlags, LookupFlags, OpenFlags, RiFlags, RoFlags, SdFlags, SetTimeFlags, SiFlags};
pub use ident::{Device, DirCookie, Fd, Inode};
pub use poll::{
    Event, EventFdState, EventRwFlags, EventType, SubClockFlags, Subscription, SubscriptionClock,
    SubscriptionFdReadwrite, SubscriptionUnion, UserData,
};
pub use rights::Rights;
pub use signal::Signal;
