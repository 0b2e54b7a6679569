use vstd::prelude::*;
use vstd::std_specs::convert::FromSpecImpl;
use vstd::std_specs::convert::TryFromSpecImpl;
use std::io::ErrorKind;

verus! {

/// A host I/O error. Nothing inside it is visible to the verifier but its category.
#[verifier::external_type_specification]
#[verifier::external_body]
pub struct ExIoError(std::io::Error);

/// The host's error categories. The variants are read from `std` itself, so a `match`
/// on a category is verified against the enumeration that the host really has.
#[verifier::external_type_specification]
pub struct ExIoErrorKind(std::io::ErrorKind);

/// The category of a host error, as `std::io::Error::kind` reports it. It is a
/// function of the error alone. Which category a given error has is not stated here:
/// what is proved of it is proved for every category.
pub uninterp spec fn io_error_kind(err: std::io::Error) -> ErrorKind;

/// `std::io::Error::kind` reads the category out of a host error and leaves the error
/// as it is. The call returns for every error. All that is claimed is that the result
/// is the category that `io_error_kind` names.
pub assume_specification[ std::io::Error::kind ](err: &std::io::Error) -> (kind: ErrorKind)
    ensures
        kind == io_error_kind(*err),
;

/// Error codes that an operation reports to the guest.
///
/// The set is closed. The number of each variant is part of the wire contract: a new
/// variant may be added at the end, but no existing number ever changes.
#[derive(Clone, Copy, Debug, PartialEq, Eq, Structural)]
#[non_exhaustive]
pub enum ErrNo {
    /// No error occurred. System call completed successfully.
    Success,

    /// Argument list too long.
    TooBig,

    /// Permission denied.
    Access,

    /// Address in use.
    AddrInUse,

    /// Address not available.
    AddrNotAvail,

    /// Address family not supported.
    AfNoSupport,

    /// Resource unavailable, or operation would block.
    Again,

    /// Connection already in progress.
    Already,

    /// Bad file descriptor.
    BadF,

    /// Bad message.
    BadMsg,

    /// Device or resource busy.
    Busy,

    /// Operation canceled.
    Canceled,

    /// No child processes.
    Child,

    /// Connection aborted.
    ConnAborted,

    /// Connection refused.
    ConnRefused,

    /// Connection reset.
    ConnReset,

    /// Resource deadlock would occur.
    Deadlk,

    /// Destination address required.
    DestAddrReq,

    /// Mathematics argument out of domain of function.
    Domain,

    /// Reserved. (Quota exceeded.)
    DQuot,

    /// File exists.
    Exist,

    /// Bad address.
    Fault,

    /// File too large.
    FBig,

    /// Host is unreachable.
    HostUnreach,

    /// Identifier removed.
    IdRm,

    /// Illegal byte sequence.
    IlSeq,

    /// Operation in progress.
    InProgress,

    /// Interrupted function.
    Intr,

    /// Invalid argument.
    Inval,

    /// I/O error.
    Io,

    /// Socket is connected.
    IsConn,

    /// Is a directory.
    IsDir,

    /// Too many levels of symbolic links.
    Loop,

    /// File descriptor value too large.
    MFile,

    /// Too many links.
    MLink,

    /// Message too large.
    MsgSize,

    /// Reserved. (Multihop attempted.)
    Multihop,

    /// Filename too long.
    NameTooLong,

    /// Network is down.
    NetDown,

    /// Connection aborted by network.
    NetReset,

    /// Network unreachable.
    NetUnreach,

    /// Too many files open in system.
    NFile,

    /// No buffer space available.
    NoBufS,

    /// No such device.
    NoDev,

    /// No such file or directory.
    NoEnt,

    /// Executable file format error.
    NoExec,

    /// No locks available.
    NoLock,

    /// Reserved. (Link has been severed.)
    NoLink,

    /// Not enough space.
    NoMem,

    /// No message of the desired type.
    NoMsg,

    /// Protocol not available.
    NoProtoOpt,

    /// No space left on device.
    NoSpace,

    /// Function not supported. (Always unsupported.)
    NoSys,

    /// The socket is not connected.
    NotConn,

    /// Not a directory or a symbolic link to a directory.
    NotDir,

    /// Directory not empty.
    NotEmpty,

    /// State not recoverable.
    NotRecoverable,

    /// Not a socket.
    NotSock,

    /// Not supported, or operation not supported on socket. (Transient unsupported.)
    NotSup,

    /// Inappropriate I/O control operation.
    NoTty,

    /// No such device or address.
    NxIo,

    /// Value too large to be stored in data type.
    Overflow,

    /// Previous owner died.
    OwnerDead,

    /// Operation not permitted.
    Perm,

    /// Broken pipe.
    Pipe,

    /// Protocol error.
    Proto,

    /// Protocol not supported.
    ProtoNoSupport,

    /// Protocol wrong type for socket.
    ProtoType,

    /// Result too large.
    Range,

    /// Read-only file system.
    RoFs,

    /// Invalid seek.
    SPipe,

    /// No such process.
    Srch,

    /// Reserved. (Stale file handle.)
    Stale,

    /// Connection timed out.
    TimedOut,

    /// Text file busy.
    TxtBsy,

    /// Cross-device link.
    XDev,

    /// Extension: Capabilities insufficient.
    NotCapable,
}

impl ErrNo {
    /// The number that stands for this variant on the wire.
    pub open spec fn code(self) -> u16 {
        match self {
            ErrNo::Success => 0,
            ErrNo::TooBig => 1,
            ErrNo::Access => 2,
            ErrNo::AddrInUse => 3,
            ErrNo::AddrNotAvail => 4,
            ErrNo::AfNoSupport => 5,
            ErrNo::Again => 6,
            ErrNo::Already => 7,
            ErrNo::BadF => 8,
            ErrNo::BadMsg => 9,
            ErrNo::Busy => 10,
            ErrNo::Canceled => 11,
            ErrNo::Child => 12,
            ErrNo::ConnAborted => 13,
            ErrNo::ConnRefused => 14,
            ErrNo::ConnReset => 15,
            ErrNo::Deadlk => 16,
            ErrNo::DestAddrReq => 17,
            ErrNo::Domain => 18,
            ErrNo::DQuot => 19,
            ErrNo::Exist => 20,
            ErrNo::Fault => 21,
            ErrNo::FBig => 22,
            ErrNo::HostUnreach => 23,
            ErrNo::IdRm => 24,
            ErrNo::IlSeq => 25,
            ErrNo::InProgress => 26,
            ErrNo::Intr => 27,
            ErrNo::Inval => 28,
            ErrNo::Io => 29,
            ErrNo::IsConn => 30,
            ErrNo::IsDir => 31,
            ErrNo::Loop => 32,
            ErrNo::MFile => 33,
            ErrNo::MLink => 34,
            ErrNo::MsgSize => 35,
            ErrNo::Multihop => 36,
            ErrNo::NameTooLong => 37,
            ErrNo::NetDown => 38,
            ErrNo::NetReset => 39,
            ErrNo::NetUnreach => 40,
            ErrNo::NFile => 41,
            ErrNo::NoBufS => 42,
            ErrNo::NoDev => 43,
            ErrNo::NoEnt => 44,
            ErrNo::NoExec => 45,
            ErrNo::NoLock => 46,
            ErrNo::NoLink => 47,
            ErrNo::NoMem => 48,
            ErrNo::NoMsg => 49,
            ErrNo::NoProtoOpt => 50,
            ErrNo::NoSpace => 51,
            ErrNo::NoSys => 52,
            ErrNo::NotConn => 53,
            ErrNo::NotDir => 54,
            ErrNo::NotEmpty => 55,
            ErrNo::NotRecoverable => 56,
            ErrNo::NotSock => 57,
            ErrNo::NotSup => 58,
            ErrNo::NoTty => 59,
            ErrNo::NxIo => 60,
            ErrNo::Overflow => 61,
            ErrNo::OwnerDead => 62,
            ErrNo::Perm => 63,
            ErrNo::Pipe => 64,
            ErrNo::Proto => 65,
            ErrNo::ProtoNoSupport => 66,
            ErrNo::ProtoType => 67,
            ErrNo::Range => 68,
            ErrNo::RoFs => 69,
            ErrNo::SPipe => 70,
            ErrNo::Srch => 71,
            ErrNo::Stale => 72,
            ErrNo::TimedOut => 73,
            ErrNo::TxtBsy => 74,
            ErrNo::XDev => 75,
            ErrNo::NotCapable => 76,
        }
    }

    /// The variant that a wire number stands for, where there is one.
    pub open spec fn decode(raw: u16) -> Option<ErrNo> {
        match raw {
            0 => Some(ErrNo::Success),
            1 => Some(ErrNo::TooBig),
            2 => Some(ErrNo::Access),
            3 => Some(ErrNo::AddrInUse),
            4 => Some(ErrNo::AddrNotAvail),
            5 => Some(ErrNo::AfNoSupport),
            6 => Some(ErrNo::Again),
            7 => Some(ErrNo::Already),
            8 => Some(ErrNo::BadF),
            9 => Some(ErrNo::BadMsg),
            10 => Some(ErrNo::Busy),
            11 => Some(ErrNo::Canceled),
            12 => Some(ErrNo::Child),
            13 => Some(ErrNo::ConnAborted),
            14 => Some(ErrNo::ConnRefused),
            15 => Some(ErrNo::ConnReset),
            16 => Some(ErrNo::Deadlk),
            17 => Some(ErrNo::DestAddrReq),
            18 => Some(ErrNo::Domain),
            19 => Some(ErrNo::DQuot),
            20 => Some(ErrNo::Exist),
            21 => Some(ErrNo::Fault),
            22 => Some(ErrNo::FBig),
            23 => Some(ErrNo::HostUnreach),
            24 => Some(ErrNo::IdRm),
            25 => Some(ErrNo::IlSeq),
            26 => Some(ErrNo::InProgress),
            27 => Some(ErrNo::Intr),
            28 => Some(ErrNo::Inval),
            29 => Some(ErrNo::Io),
            30 => Some(ErrNo::IsConn),
            31 => Some(ErrNo::IsDir),
            32 => Some(ErrNo::Loop),
            33 => Some(ErrNo::MFile),
            34 => Some(ErrNo::MLink),
            35 => Some(ErrNo::MsgSize),
            36 => Some(ErrNo::Multihop),
            37 => Some(ErrNo::NameTooLong),
            38 => Some(ErrNo::NetDown),
            39 => Some(ErrNo::NetReset),
            40 => Some(ErrNo::NetUnreach),
            41 => Some(ErrNo::NFile),
            42 => Some(ErrNo::NoBufS),
            43 => Some(ErrNo::NoDev),
            44 => Some(ErrNo::NoEnt),
            45 => Some(ErrNo::NoExec),
            46 => Some(ErrNo::NoLock),
            47 => Some(ErrNo::NoLink),
            48 => Some(ErrNo::NoMem),
            49 => Some(ErrNo::NoMsg),
            50 => Some(ErrNo::NoProtoOpt),
            51 => Some(ErrNo::NoSpace),
            52 => Some(ErrNo::NoSys),
            53 => Some(ErrNo::NotConn),
            54 => Some(ErrNo::NotDir),
            55 => Some(ErrNo::NotEmpty),
            56 => Some(ErrNo::NotRecoverable),
            57 => Some(ErrNo::NotSock),
            58 => Some(ErrNo::NotSup),
            59 => Some(ErrNo::NoTty),
            60 => Some(ErrNo::NxIo),
            61 => Some(ErrNo::Overflow),
            62 => Some(ErrNo::OwnerDead),
            63 => Some(ErrNo::Perm),
            64 => Some(ErrNo::Pipe),
            65 => Some(ErrNo::Proto),
            66 => Some(ErrNo::ProtoNoSupport),
            67 => Some(ErrNo::ProtoType),
            68 => Some(ErrNo::Range),
            69 => Some(ErrNo::RoFs),
            70 => Some(ErrNo::SPipe),
            71 => Some(ErrNo::Srch),
            72 => Some(ErrNo::Stale),
            73 => Some(ErrNo::TimedOut),
            74 => Some(ErrNo::TxtBsy),
            75 => Some(ErrNo::XDev),
            76 => Some(ErrNo::NotCapable),
            _ => None,
        }
    }

    /// Encodes the variant. Every variant has a number, and no two share one.
    pub fn to_raw(self) -> (r: u16)
        ensures
            r == self.code(),
            r <= 76,
            ErrNo::decode(r) == Some(self),
    {
        match self {
            ErrNo::Success => 0,
            ErrNo::TooBig => 1,
            ErrNo::Access => 2,
            ErrNo::AddrInUse => 3,
            ErrNo::AddrNotAvail => 4,
            ErrNo::AfNoSupport => 5,
            ErrNo::Again => 6,
            ErrNo::Already => 7,
            ErrNo::BadF => 8,
            ErrNo::BadMsg => 9,
            ErrNo::Busy => 10,
            ErrNo::Canceled => 11,
            ErrNo::Child => 12,
            ErrNo::ConnAborted => 13,
            ErrNo::ConnRefused => 14,
            ErrNo::ConnReset => 15,
            ErrNo::Deadlk => 16,
            ErrNo::DestAddrReq => 17,
            ErrNo::Domain => 18,
            ErrNo::DQuot => 19,
            ErrNo::Exist => 20,
            ErrNo::Fault => 21,
            ErrNo::FBig => 22,
            ErrNo::HostUnreach => 23,
            ErrNo::IdRm => 24,
            ErrNo::IlSeq => 25,
            ErrNo::InProgress => 26,
            ErrNo::Intr => 27,
            ErrNo::Inval => 28,
            ErrNo::Io => 29,
            ErrNo::IsConn => 30,
            ErrNo::IsDir => 31,
            ErrNo::Loop => 32,
            ErrNo::MFile => 33,
            ErrNo::MLink => 34,
            ErrNo::MsgSize => 35,
            ErrNo::Multihop => 36,
            ErrNo::NameTooLong => 37,
            ErrNo::NetDown => 38,
            ErrNo::NetReset => 39,
            ErrNo::NetUnreach => 40,
            ErrNo::NFile => 41,
            ErrNo::NoBufS => 42,
            ErrNo::NoDev => 43,
            ErrNo::NoEnt => 44,
            ErrNo::NoExec => 45,
            ErrNo::NoLock => 46,
            ErrNo::NoLink => 47,
            ErrNo::NoMem => 48,
            ErrNo::NoMsg => 49,
            ErrNo::NoProtoOpt => 50,
            ErrNo::NoSpace => 51,
            ErrNo::NoSys => 52,
            ErrNo::NotConn => 53,
            ErrNo::NotDir => 54,
            ErrNo::NotEmpty => 55,
            ErrNo::NotRecoverable => 56,
            ErrNo::NotSock => 57,
            ErrNo::NotSup => 58,
            ErrNo::NoTty => 59,
            ErrNo::NxIo => 60,
            ErrNo::Overflow => 61,
            ErrNo::OwnerDead => 62,
            ErrNo::Perm => 63,
            ErrNo::Pipe => 64,
            ErrNo::Proto => 65,
            ErrNo::ProtoNoSupport => 66,
            ErrNo::ProtoType => 67,
            ErrNo::Range => 68,
            ErrNo::RoFs => 69,
            ErrNo::SPipe => 70,
            ErrNo::Srch => 71,
            ErrNo::Stale => 72,
            ErrNo::TimedOut => 73,
            ErrNo::TxtBsy => 74,
            ErrNo::XDev => 75,
            ErrNo::NotCapable => 76,
        }
    }

    /// Decodes a wire number. A number above 76 stands for no variant and is
    /// rejected with `None`; it is never clamped or replaced by a default.
    pub fn from_raw(raw: u16) -> (r: Option<ErrNo>)
        ensures
            r == ErrNo::decode(raw),
            r is Some <==> raw <= 76,
            r matches Some(v) ==> v.code() == raw,
    {
        match raw {
            0 => Some(ErrNo::Success),
            1 => Some(ErrNo::TooBig),
            2 => Some(ErrNo::Access),
            3 => Some(ErrNo::AddrInUse),
            4 => Some(ErrNo::AddrNotAvail),
            5 => Some(ErrNo::AfNoSupport),
            6 => Some(ErrNo::Again),
            7 => Some(ErrNo::Already),
            8 => Some(ErrNo::BadF),
            9 => Some(ErrNo::BadMsg),
            10 => Some(ErrNo::Busy),
            11 => Some(ErrNo::Canceled),
            12 => Some(ErrNo::Child),
            13 => Some(ErrNo::ConnAborted),
            14 => Some(ErrNo::ConnRefused),
            15 => Some(ErrNo::ConnReset),
            16 => Some(ErrNo::Deadlk),
            17 => Some(ErrNo::DestAddrReq),
            18 => Some(ErrNo::Domain),
            19 => Some(ErrNo::DQuot),
            20 => Some(ErrNo::Exist),
            21 => Some(ErrNo::Fault),
            22 => Some(ErrNo::FBig),
            23 => Some(ErrNo::HostUnreach),
            24 => Some(ErrNo::IdRm),
            25 => Some(ErrNo::IlSeq),
            26 => Some(ErrNo::InProgress),
            27 => Some(ErrNo::Intr),
            28 => Some(ErrNo::Inval),
            29 => Some(ErrNo::Io),
            30 => Some(ErrNo::IsConn),
            31 => Some(ErrNo::IsDir),
            32 => Some(ErrNo::Loop),
            33 => Some(ErrNo::MFile),
            34 => Some(ErrNo::MLink),
            35 => Some(ErrNo::MsgSize),
            36 => Some(ErrNo::Multihop),
            37 => Some(ErrNo::NameTooLong),
            38 => Some(ErrNo::NetDown),
            39 => Some(ErrNo::NetReset),
            40 => Some(ErrNo::NetUnreach),
            41 => Some(ErrNo::NFile),
            42 => Some(ErrNo::NoBufS),
            43 => Some(ErrNo::NoDev),
            44 => Some(ErrNo::NoEnt),
            45 => Some(ErrNo::NoExec),
            46 => Some(ErrNo::NoLock),
            47 => Some(ErrNo::NoLink),
            48 => Some(ErrNo::NoMem),
            49 => Some(ErrNo::NoMsg),
            50 => Some(ErrNo::NoProtoOpt),
            51 => Some(ErrNo::NoSpace),
            52 => Some(ErrNo::NoSys),
            53 => Some(ErrNo::NotConn),
            54 => Some(ErrNo::NotDir),
            55 => Some(ErrNo::NotEmpty),
            56 => Some(ErrNo::NotRecoverable),
            57 => Some(ErrNo::NotSock),
            58 => Some(ErrNo::NotSup),
            59 => Some(ErrNo::NoTty),
            60 => Some(ErrNo::NxIo),
            61 => Some(ErrNo::Overflow),
            62 => Some(ErrNo::OwnerDead),
            63 => Some(ErrNo::Perm),
            64 => Some(ErrNo::Pipe),
            65 => Some(ErrNo::Proto),
            66 => Some(ErrNo::ProtoNoSupport),
            67 => Some(ErrNo::ProtoType),
            68 => Some(ErrNo::Range),
            69 => Some(ErrNo::RoFs),
            70 => Some(ErrNo::SPipe),
            71 => Some(ErrNo::Srch),
            72 => Some(ErrNo::Stale),
            73 => Some(ErrNo::TimedOut),
            74 => Some(ErrNo::TxtBsy),
            75 => Some(ErrNo::XDev),
            76 => Some(ErrNo::NotCapable),
            _ => None,
        }
    }

    /// Decoding the number of a variant gives that variant back.
    pub proof fn lemma_decode_code(v: ErrNo)
        ensures
            v.code() <= 76,
            ErrNo::decode(v.code()) == Some(v),
    {
    }

    /// Exactly the numbers up to 76 decode, each to the variant that encodes to it.
    pub proof fn lemma_code_decode(raw: u16)
        ensures
            ErrNo::decode(raw) is Some <==> raw <= 76,
            ErrNo::decode(raw) matches Some(v) ==> v.code() == raw,
    {
    }

    /// Two variants with the same number are the same variant.
    pub proof fn lemma_code_injective(a: ErrNo, b: ErrNo)
        requires
            a.code() == b.code(),
        ensures
            a == b,
    {
        ErrNo::lemma_decode_code(a);
        ErrNo::lemma_decode_code(b);
    }

    /// Whether this is the one value that reports no error.
    pub open spec fn spec_is_success(self) -> bool {
        self == ErrNo::Success
    }

    /// Whether this is the one value that reports no error: the one encoded as zero.
    #[verifier::when_used_as_spec(spec_is_success)]
    pub fn is_success(self) -> (r: bool)
        ensures
            r == (self == ErrNo::Success),
            r == (self.code() == 0),
    {
        match self {
            ErrNo::Success => true,
            _ => false,
        }
    }

    /// The guest code under which a host error category is reported.
    ///
    /// The table is total and many-to-one: both kinds of invalid value become `Inval`,
    /// and every category without a row of its own (a short write, an unexpected end
    /// of input, the unclassified bucket and whatever the host adds later) becomes `Io`.
    pub open spec fn of_kind(kind: ErrorKind) -> ErrNo {
        match kind {
            ErrorKind::NotFound => ErrNo::NoEnt,
            ErrorKind::PermissionDenied => ErrNo::Access,
            ErrorKind::ConnectionRefused => ErrNo::ConnRefused,
            ErrorKind::ConnectionReset => ErrNo::ConnReset,
            ErrorKind::ConnectionAborted => ErrNo::ConnAborted,
            ErrorKind::NotConnected => ErrNo::NotConn,
            ErrorKind::AddrInUse => ErrNo::AddrInUse,
            ErrorKind::AddrNotAvailable => ErrNo::AddrNotAvail,
            ErrorKind::BrokenPipe => ErrNo::Pipe,
            ErrorKind::AlreadyExists => ErrNo::Exist,
            ErrorKind::WouldBlock => ErrNo::Again,
            ErrorKind::InvalidInput => ErrNo::Inval,
            ErrorKind::InvalidData => ErrNo::Inval,
            ErrorKind::TimedOut => ErrNo::TimedOut,
            ErrorKind::Interrupted => ErrNo::Intr,
            _ => ErrNo::Io,
        }
    }

    /// Whether the table has a row of its own for the category.
    pub open spec fn has_own_row(kind: ErrorKind) -> bool {
        match kind {
            ErrorKind::NotFound
            | ErrorKind::PermissionDenied
            | ErrorKind::ConnectionRefused
            | ErrorKind::ConnectionReset
            | ErrorKind::ConnectionAborted
            | ErrorKind::NotConnected
            | ErrorKind::AddrInUse
            | ErrorKind::AddrNotAvailable
            | ErrorKind::BrokenPipe
            | ErrorKind::AlreadyExists
            | ErrorKind::WouldBlock
            | ErrorKind::InvalidInput
            | ErrorKind::InvalidData
            | ErrorKind::TimedOut
            | ErrorKind::Interrupted => true,
            _ => false,
        }
    }

    /// Whether some host error category is reported as this code.
    pub open spec fn is_host_reportable(self) -> bool {
        exists|kind: ErrorKind| self == ErrNo::of_kind(kind)
    }

    /// The guest code that reports a host error category.
    pub fn from_kind(kind: ErrorKind) -> (r: ErrNo)
        ensures
            r == ErrNo::of_kind(kind),
            r.is_host_reportable(),
            r != ErrNo::Success,
            r != ErrNo::NotCapable,
    {
        match kind {
            ErrorKind::NotFound => ErrNo::NoEnt,
            ErrorKind::PermissionDenied => ErrNo::Access,
            ErrorKind::ConnectionRefused => ErrNo::ConnRefused,
            ErrorKind::ConnectionReset => ErrNo::ConnReset,
            ErrorKind::ConnectionAborted => ErrNo::ConnAborted,
            ErrorKind::NotConnected => ErrNo::NotConn,
            ErrorKind::AddrInUse => ErrNo::AddrInUse,
            ErrorKind::AddrNotAvailable => ErrNo::AddrNotAvail,
            ErrorKind::BrokenPipe => ErrNo::Pipe,
            ErrorKind::AlreadyExists => ErrNo::Exist,
            ErrorKind::WouldBlock => ErrNo::Again,
            ErrorKind::InvalidInput => ErrNo::Inval,
            ErrorKind::InvalidData => ErrNo::Inval,
            ErrorKind::TimedOut => ErrNo::TimedOut,
            ErrorKind::Interrupted => ErrNo::Intr,
            _ => ErrNo::Io,
        }
    }

    /// What `from_io_error` returns: the row of the table for the error's category.
    pub open spec fn of_io_error(err: std::io::Error) -> ErrNo {
        ErrNo::of_kind(io_error_kind(err))
    }

    /// The guest code that reports a host error: the row of the table for the error's
    /// category. An error whose category has no row of its own is reported as `Io`.
    /// No error is reported as success or as a missing capability.
    pub fn from_io_error(err: &std::io::Error) -> (r: ErrNo)
        ensures
            r == ErrNo::of_kind(io_error_kind(*err)),
            !ErrNo::has_own_row(io_error_kind(*err)) ==> r == ErrNo::Io,
            r != ErrNo::Success,
            r != ErrNo::NotCapable,
    {
        ErrNo::from_kind(err.kind())
    }

    /// `Success` is encoded as zero, and it is the only variant that is.
    pub proof fn lemma_only_success_is_zero(e: ErrNo)
        ensures
            e.code() == 0 <==> e == ErrNo::Success,
    {
    }

    /// No host error category is reported as success, and none as a missing
    /// capability: that code belongs to the rights model alone.
    pub proof fn lemma_host_errors_are_failures(kind: ErrorKind)
        ensures
            ErrNo::of_kind(kind) != ErrNo::Success,
            ErrNo::of_kind(kind) != ErrNo::NotCapable,
    {
    }

    /// A category without a row of its own is reported as the general I/O error, and
    /// no category with a row of its own is.
    pub proof fn lemma_unlisted_categories_are_io(kind: ErrorKind)
        ensures
            !ErrNo::has_own_row(kind) <==> ErrNo::of_kind(kind) == ErrNo::Io,
    {
    }

    /// A host error whose category has no row of its own is reported as the general
    /// I/O error, whatever that category is, and no other host error is. No host error
    /// is reported as success or as a missing capability.
    pub proof fn lemma_unlisted_host_errors_are_io(err: std::io::Error)
        ensures
            !ErrNo::has_own_row(io_error_kind(err)) <==> ErrNo::of_io_error(err) == ErrNo::Io,
            ErrNo::of_io_error(err) != ErrNo::Success,
            ErrNo::of_io_error(err) != ErrNo::NotCapable,
    {
    }

    /// The table cannot be read backwards: different categories share a code.
    pub proof fn lemma_categories_collapse()
        ensures
            ErrNo::of_kind(ErrorKind::InvalidInput) == ErrNo::of_kind(ErrorKind::InvalidData),
            ErrNo::of_kind(ErrorKind::WriteZero) == ErrNo::of_kind(ErrorKind::UnexpectedEof),
            ErrNo::of_kind(ErrorKind::Other) == ErrNo::Io,
    {
    }
}

impl From<ErrNo> for u16 {
    fn from(value: ErrNo) -> (r: u16) {
        value.to_raw()
    }
}

impl FromSpecImpl<ErrNo> for u16 {
    open spec fn obeys_from_spec() -> bool {
        true
    }

    open spec fn from_spec(value: ErrNo) -> u16 {
        value.code()
    }
}

impl TryFrom<u16> for ErrNo {
    type Error = ();

    fn try_from(raw: u16) -> (r: Result<ErrNo, ()>) {
        match ErrNo::from_raw(raw) {
            Some(v) => Ok(v),
            None => Err(()),
        }
    }
}

impl TryFromSpecImpl<u16> for ErrNo {
    open spec fn obeys_try_from_spec() -> bool {
        true
    }

    open spec fn try_from_spec(raw: u16) -> Result<ErrNo, ()> {
        match ErrNo::decode(raw) {
            Some(v) => Ok(v),
            None => Err(()),
        }
    }
}

impl From<std::io::Error> for ErrNo {
    fn from(err: std::io::Error) -> (r: ErrNo)
        ensures
            r == ErrNo::of_kind(io_error_kind(err)),
            !ErrNo::has_own_row(io_error_kind(err)) ==> r == ErrNo::Io,
            r != ErrNo::Success,
            r != ErrNo::NotCapable,
    {
        ErrNo::from_io_error(&err)
    }
}

impl FromSpecImpl<std::io::Error> for ErrNo {
    open spec fn obeys_from_spec() -> bool {
        true
    }

    open spec fn from_spec(err: std::io::Error) -> ErrNo {
        ErrNo::of_kind(io_error_kind(err))
    }
}

} // verus!
