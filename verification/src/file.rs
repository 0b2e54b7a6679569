use vstd::prelude::*;
use vstd::std_specs::convert::FromSpecImpl;
use vstd::std_specs::convert::TryFromSpecImpl;
use crate::clock::Timestamp;
use crate::errno::ErrNo;
use crate::flags::FdFlags;
use crate::ident::{Device, DirCookie, Inode};
use crate::rights::Rights;

verus! {

/// The type of a file or of a descriptor.
#[derive(Clone, Copy, Debug, PartialEq, Eq, Structural)]
pub enum FileType {
    /// The type is unknown, or is none of the others.
    Unknown,

    /// A block device.
    BlockDevice,

    /// A character device.
    CharacterDevice,

    /// A directory.
    Directory,

    /// A regular file.
    RegularFile,

    /// A datagram socket.
    SocketDgram,

    /// A byte-stream socket.
    SocketStream,

    /// A symbolic link.
    SymbolicLink,
}

impl FileType {
    /// The number that stands for this variant on the wire.
    pub open spec fn code(self) -> u8 {
        match self {
            FileType::Unknown => 0,
            FileType::BlockDevice => 1,
            FileType::CharacterDevice => 2,
            FileType::Directory => 3,
            FileType::RegularFile => 4,
            FileType::SocketDgram => 5,
            FileType::SocketStream => 6,
            FileType::SymbolicLink => 7,
        }
    }

    /// The variant that a wire number stands for, where there is one.
    pub open spec fn decode(raw: u8) -> Option<FileType> {
        match raw {
            0 => Some(FileType::Unknown),
            1 => Some(FileType::BlockDevice),
            2 => Some(FileType::CharacterDevice),
            3 => Some(FileType::Directory),
            4 => Some(FileType::RegularFile),
            5 => Some(FileType::SocketDgram),
            6 => Some(FileType::SocketStream),
            7 => Some(FileType::SymbolicLink),
            _ => None,
        }
    }

    /// Encodes the variant. Every variant has a number, and no two share one.
    pub fn to_raw(self) -> (r: u8)
        ensures
            r == self.code(),
            r <= 7,
            FileType::decode(r) == Some(self),
    {
        match self {
            FileType::Unknown => 0,
            FileType::BlockDevice => 1,
            FileType::CharacterDevice => 2,
            FileType::Directory => 3,
            FileType::RegularFile => 4,
            FileType::SocketDgram => 5,
            FileType::SocketStream => 6,
            FileType::SymbolicLink => 7,
        }
    }

    /// Decodes a wire number. A number above 7 stands for no variant and is
    /// rejected with `None`; it is never clamped or replaced by a default.
    pub fn from_raw(raw: u8) -> (r: Option<FileType>)
        ensures
            r == FileType::decode(raw),
            r is Some <==> raw <= 7,
            r matches Some(v) ==> v.code() == raw,
    {
        match raw {
            0 => Some(FileType::Unknown),
            1 => Some(FileType::BlockDevice),
            2 => Some(FileType::CharacterDevice),
            3 => Some(FileType::Directory),
            4 => Some(FileType::RegularFile),
            5 => Some(FileType::SocketDgram),
            6 => Some(FileType::SocketStream),
            7 => Some(FileType::SymbolicLink),
            _ => None,
        }
    }

    /// Decoding the number of a variant gives that variant back.
    pub proof fn lemma_decode_code(v: FileType)
        ensures
            v.code() <= 7,
            FileType::decode(v.code()) == Some(v),
    {
    }

    /// Exactly the numbers up to 7 decode, each to the variant that encodes to it.
    pub proof fn lemma_code_decode(raw: u8)
        ensures
            FileType::decode(raw) is Some <==> raw <= 7,
            FileType::decode(raw) matches Some(v) ==> v.code() == raw,
    {
    }

    /// Two variants with the same number are the same variant.
    pub proof fn lemma_code_injective(a: FileType, b: FileType)
        requires
            a.code() == b.code(),
        ensures
            a == b,
    {
        FileType::lemma_decode_code(a);
        FileType::lemma_decode_code(b);
    }

    /// Whether a descriptor of this type is always ready for reading and for writing:
    /// a regular file never blocks.
    pub open spec fn spec_is_always_ready(self) -> bool {
        self == FileType::RegularFile
    }

    /// Whether a descriptor of this type is always ready for reading and for writing.
    #[verifier::when_used_as_spec(spec_is_always_ready)]
    pub fn is_always_ready(self) -> (r: bool)
        ensures
            r == (self == FileType::RegularFile),
    {
        match self {
            FileType::RegularFile => true,
            _ => false,
        }
    }
}

impl From<FileType> for u8 {
    fn from(value: FileType) -> (r: u8) {
        value.to_raw()
    }
}

impl FromSpecImpl<FileType> for u8 {
    open spec fn obeys_from_spec() -> bool {
        true
    }

    open spec fn from_spec(value: FileType) -> u8 {
        value.code()
    }
}

impl TryFrom<u8> for FileType {
    type Error = ();

    fn try_from(raw: u8) -> (r: Result<FileType, ()>) {
        match FileType::from_raw(raw) {
            Some(v) => Ok(v),
            None => Err(()),
        }
    }
}

impl TryFromSpecImpl<u8> for FileType {
    open spec fn obeys_try_from_spec() -> bool {
        true
    }

    open spec fn try_from_spec(raw: u8) -> Result<FileType, ()> {
        match FileType::decode(raw) {
            Some(v) => Ok(v),
            None => Err(()),
        }
    }
}

/// Advice on how a file will be accessed.
#[derive(Clone, Copy, Debug, PartialEq, Eq, Structural)]
pub enum Advice {
    /// There is no advice to give on how the data will be accessed.
    Normal,

    /// The data will be accessed in order, from lower to higher offsets.
    Sequential,

    /// The data will be accessed in no particular order.
    Random,

    /// The data will not be accessed in the near future.
    DontNeed,

    /// The data will be accessed once and not again.
    NoReuse,

    /// The data will be accessed in the near future.
    WillNeed,
}

impl Advice {
    /// The number that stands for this variant on the wire.
    pub open spec fn code(self) -> u8 {
        match self {
            Advice::Normal => 0,
            Advice::Sequential => 1,
            Advice::Random => 2,
            Advice::DontNeed => 3,
            Advice::NoReuse => 4,
            Advice::WillNeed => 5,
        }
    }

    /// The variant that a wire number stands for, where there is one.
    pub open spec fn decode(raw: u8) -> Option<Advice> {
        match raw {
            0 => Some(Advice::Normal),
            1 => Some(Advice::Sequential),
            2 => Some(Advice::Random),
            3 => Some(Advice::DontNeed),
            4 => Some(Advice::NoReuse),
            5 => Some(Advice::WillNeed),
            _ => None,
        }
    }

    /// Encodes the variant. Every variant has a number, and no two share one.
    pub fn to_raw(self) -> (r: u8)
        ensures
            r == self.code(),
            r <= 5,
            Advice::decode(r) == Some(self),
    {
        match self {
            Advice::Normal => 0,
            Advice::Sequential => 1,
            Advice::Random => 2,
            Advice::DontNeed => 3,
            Advice::NoReuse => 4,
            Advice::WillNeed => 5,
        }
    }

    /// Decodes a wire number. A number above 5 stands for no variant and is
    /// rejected with `None`; it is never clamped or replaced by a default.
    pub fn from_raw(raw: u8) -> (r: Option<Advice>)
        ensures
            r == Advice::decode(raw),
            r is Some <==> raw <= 5,
            r matches Some(v) ==> v.code() == raw,
    {
        match raw {
            0 => Some(Advice::Normal),
            1 => Some(Advice::Sequential),
            2 => Some(Advice::Random),
            3 => Some(Advice::DontNeed),
            4 => Some(Advice::NoReuse),
            5 => Some(Advice::WillNeed),
            _ => None,
        }
    }

    /// Decoding the number of a variant gives that variant back.
    pub proof fn lemma_decode_code(v: Advice)
        ensures
            v.code() <= 5,
            Advice::decode(v.code()) == Some(v),
    {
    }

    /// Exactly the numbers up to 5 decode, each to the variant that encodes to it.
    pub proof fn lemma_code_decode(raw: u8)
        ensures
            Advice::decode(raw) is Some <==> raw <= 5,
            Advice::decode(raw) matches Some(v) ==> v.code() == raw,
    {
    }

    /// Two variants with the same number are the same variant.
    pub proof fn lemma_code_injective(a: Advice, b: Advice)
        requires
            a.code() == b.code(),
        ensures
            a == b,
    {
        Advice::lemma_decode_code(a);
        Advice::lemma_decode_code(b);
    }
}

impl From<Advice> for u8 {
    fn from(value: Advice) -> (r: u8) {
        value.to_raw()
    }
}

impl FromSpecImpl<Advice> for u8 {
    open spec fn obeys_from_spec() -> bool {
        true
    }

    open spec fn from_spec(value: Advice) -> u8 {
        value.code()
    }
}

impl TryFrom<u8> for Advice {
    type Error = ();

    fn try_from(raw: u8) -> (r: Result<Advice, ()>) {
        match Advice::from_raw(raw) {
            Some(v) => Ok(v),
            None => Err(()),
        }
    }
}

impl TryFromSpecImpl<u8> for Advice {
    open spec fn obeys_try_from_spec() -> bool {
        true
    }

    open spec fn try_from_spec(raw: u8) -> Result<Advice, ()> {
        match Advice::decode(raw) {
            Some(v) => Ok(v),
            None => Err(()),
        }
    }
}

/// The position from which an offset counts when a descriptor is moved.
#[derive(Clone, Copy, Debug, PartialEq, Eq, Structural)]
pub enum Whence {
    /// The offset counts from the start of the file.
    Start,

    /// The offset counts from the current position.
    Current,

    /// The offset counts from the end of the file.
    End,
}

impl Whence {
    /// The number that stands for this variant on the wire.
    pub open spec fn code(self) -> u8 {
        match self {
            Whence::Start => 0,
            Whence::Current => 1,
            Whence::End => 2,
        }
    }

    /// The variant that a wire number stands for, where there is one.
    pub open spec fn decode(raw: u8) -> Option<Whence> {
        match raw {
            0 => Some(Whence::Start),
            1 => Some(Whence::Current),
            2 => Some(Whence::End),
            _ => None,
        }
    }

    /// Encodes the variant. Every variant has a number, and no two share one.
    pub fn to_raw(self) -> (r: u8)
        ensures
            r == self.code(),
            r <= 2,
            Whence::decode(r) == Some(self),
    {
        match self {
            Whence::Start => 0,
            Whence::Current => 1,
            Whence::End => 2,
        }
    }

    /// Decodes a wire number. A number above 2 stands for no variant and is
    /// rejected with `None`; it is never clamped or replaced by a default.
    pub fn from_raw(raw: u8) -> (r: Option<Whence>)
        ensures
            r == Whence::decode(raw),
            r is Some <==> raw <= 2,
            r matches Some(v) ==> v.code() == raw,
    {
        match raw {
            0 => Some(Whence::Start),
            1 => Some(Whence::Current),
            2 => Some(Whence::End),
            _ => None,
        }
    }

    /// Decoding the number of a variant gives that variant back.
    pub proof fn lemma_decode_code(v: Whence)
        ensures
            v.code() <= 2,
            Whence::decode(v.code()) == Some(v),
    {
    }

    /// Exactly the numbers up to 2 decode, each to the variant that encodes to it.
    pub proof fn lemma_code_decode(raw: u8)
        ensures
            Whence::decode(raw) is Some <==> raw <= 2,
            Whence::decode(raw) matches Some(v) ==> v.code() == raw,
    {
    }

    /// Two variants with the same number are the same variant.
    pub proof fn lemma_code_injective(a: Whence, b: Whence)
        requires
            a.code() == b.code(),
        ensures
            a == b,
    {
        Whence::lemma_decode_code(a);
        Whence::lemma_decode_code(b);
    }
}

impl From<Whence> for u8 {
    fn from(value: Whence) -> (r: u8) {
        value.to_raw()
    }
}

impl FromSpecImpl<Whence> for u8 {
    open spec fn obeys_from_spec() -> bool {
        true
    }

    open spec fn from_spec(value: Whence) -> u8 {
        value.code()
    }
}

impl TryFrom<u8> for Whence {
    type Error = ();

    fn try_from(raw: u8) -> (r: Result<Whence, ()>) {
        match Whence::from_raw(raw) {
            Some(v) => Ok(v),
            None => Err(()),
        }
    }
}

impl TryFromSpecImpl<u8> for Whence {
    open spec fn obeys_try_from_spec() -> bool {
        true
    }

    open spec fn try_from_spec(raw: u8) -> Result<Whence, ()> {
        match Whence::decode(raw) {
            Some(v) => Ok(v),
            None => Err(()),
        }
    }
}

/// A byte count.
pub type FileSize = u64;

/// A signed offset within a file.
pub type FileDelta = i64;

/// The number of hard links to a file.
pub type LinkCount = u32;

/// A length in the guest's memory.
pub type Size = u32;

/// An offset into the guest's memory.
pub type Pointer = u32;

/// The exit code of a guest.
pub type ExitCode = u32;

/// An entry of a directory listing.
#[derive(Clone, Copy, Debug, PartialEq, Eq)]
pub struct DirEnt {
    /// The position of the entry that follows this one.
    pub next: DirCookie,
    /// The serial number of the file that the entry names.
    pub inode: Inode,
    /// The length of the entry's name.
    pub name_len: u32,
    /// The type of the file that the entry names.
    pub file_type: FileType,
}

/// The attributes of a descriptor.
#[derive(Clone, Copy, Debug, PartialEq, Eq)]
pub struct FdStat {
    /// The type of the file behind the descriptor.
    pub file_type: FileType,
    /// The flags that the descriptor was opened with or was given since.
    pub flags: FdFlags,
    /// The rights of the descriptor itself.
    pub rights_base: Rights,
    /// The most that a descriptor derived from this one may be given. It need not be
    /// a subset of `rights_base`.
    pub rights_inheriting: Rights,
}

impl FdStat {
    /// Whether the descriptor itself may be used for every operation in `needed`.
    pub open spec fn spec_allows(&self, needed: Rights) -> bool {
        needed.spec_implies(self.rights_base)
    }

    /// Whether the descriptor itself may be used for every operation in `needed`.
    #[verifier::when_used_as_spec(spec_allows)]
    pub fn allows(&self, needed: Rights) -> (r: bool)
        ensures
            r == needed.spec_implies(self.rights_base),
    {
        needed.implies(self.rights_base)
    }

    /// Admits an operation that needs the rights in `needed`, or rejects it with
    /// `NotCapable` where the descriptor lacks one of them.
    pub fn require(&self, needed: Rights) -> (r: Result<(), ErrNo>)
        ensures
            r is Ok <==> self.spec_allows(needed),
            r is Err ==> r == Err::<(), ErrNo>(ErrNo::NotCapable),
    {
        if self.allows(needed) {
            Ok(())
        } else {
            Err(ErrNo::NotCapable)
        }
    }

    /// Whether `rights` may be installed on a descriptor derived from this one: whether
    /// they stay under the ceiling that `rights_inheriting` sets.
    pub open spec fn spec_may_grant(&self, rights: Rights) -> bool {
        rights.spec_implies(self.rights_inheriting)
    }

    /// Whether `rights` may be installed on a descriptor derived from this one.
    #[verifier::when_used_as_spec(spec_may_grant)]
    pub fn may_grant(&self, rights: Rights) -> (r: bool)
        ensures
            r == rights.spec_implies(self.rights_inheriting),
    {
        rights.implies(self.rights_inheriting)
    }
}

/// The attributes of a file.
#[derive(Clone, Copy, Debug, PartialEq, Eq)]
pub struct FileStat {
    /// The device that holds the file.
    pub device: Device,
    /// The serial number of the file on that device.
    pub inode: Inode,
    /// The type of the file.
    pub file_type: FileType,
    /// The number of hard links to the file.
    pub num_links: LinkCount,
    /// The size of the file in bytes.
    pub file_size: FileSize,
    /// The time of the last access.
    pub atime: Timestamp,
    /// The time of the last change of the data.
    pub mtime: Timestamp,
    /// The time of the last change of the attributes.
    pub ctime: Timestamp,
}

impl FileStat {
    /// Whether two records describe one file: the same inode on the same device.
    pub open spec fn spec_same_file(&self, other: &FileStat) -> bool {
        self.device@ == other.device@ && self.inode@ == other.inode@
    }

    /// Whether two records describe one file: the same inode on the same device.
    #[verifier::when_used_as_spec(spec_same_file)]
    pub fn same_file(&self, other: &FileStat) -> (r: bool)
        ensures
            r == (self.device@ == other.device@ && self.inode@ == other.inode@),
    {
        self.device.to_raw() == other.device.to_raw() && self.inode.0 == other.inode.0
    }
}

/// A region of the guest's memory, for scattered reads and gathered writes.
#[derive(Clone, Copy, Debug, PartialEq, Eq)]
pub struct IoVec {
    /// Where the region starts.
    pub buf: Pointer,
    /// How many bytes it holds.
    pub len: Size,
}

/// What is known of a resource that was opened before the guest started.
#[derive(Clone, Copy, Debug, PartialEq, Eq)]
pub struct Prestat {
    /// What kind of resource it is.
    pub resource_type: PreopenType,
}

/// The kind of a resource that was opened before the guest started.
#[derive(Clone, Copy, Debug, PartialEq, Eq)]
pub enum PreopenType {
    /// A directory, with the length of its name.
    Dir { name_len: Size },
}

} // verus!
