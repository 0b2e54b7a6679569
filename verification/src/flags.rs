use vstd::prelude::*;
use vstd::std_specs::convert::FromSpecImpl;
use vstd::std_specs::convert::TryFromSpecImpl;

verus! {

/// Facts on 8-bit masks: zero lies within every mask, what is cut to a mask lies
/// within it, and union and intersection keep within a mask what lies within it.
pub proof fn lemma_mask_u8(a: u8, b: u8, m: u8)
    by (bit_vector)
    ensures
        0u8 & !m == 0,
        (a & m) & !m == 0,
        a & !m == 0 ==> (a & b) & !m == 0,
        a & !m == 0 && b & !m == 0 ==> (a | b) & !m == 0,
{
}

/// Facts on 16-bit masks: zero lies within every mask, what is cut to a mask lies
/// within it, and union and intersection keep within a mask what lies within it.
pub proof fn lemma_mask_u16(a: u16, b: u16, m: u16)
    by (bit_vector)
    ensures
        0u16 & !m == 0,
        (a & m) & !m == 0,
        a & !m == 0 ==> (a & b) & !m == 0,
        a & !m == 0 && b & !m == 0 ==> (a | b) & !m == 0,
{
}

/// Facts on 32-bit masks: zero lies within every mask, what is cut to a mask lies
/// within it, and union and intersection keep within a mask what lies within it.
pub proof fn lemma_mask_u32(a: u32, b: u32, m: u32)
    by (bit_vector)
    ensures
        0u32 & !m == 0,
        (a & m) & !m == 0,
        a & !m == 0 ==> (a & b) & !m == 0,
        a & !m == 0 && b & !m == 0 ==> (a | b) & !m == 0,
{
}

/// The flags of a descriptor.
#[derive(Clone, Copy, Debug, PartialEq, Eq, Hash, Structural)]
pub struct FdFlags {
    bits: u16,
}

impl FdFlags {
    /// Every write goes to the end of the file.
    pub const APPEND: u16 = 0x0001;

    /// A write returns when the data has reached the storage device.
    pub const DSYNC: u16 = 0x0002;

    /// Operations do not block.
    pub const NONBLOCK: u16 = 0x0004;

    /// Reads are synchronised as writes are.
    pub const RSYNC: u16 = 0x0008;

    /// A write returns when the data and the metadata have reached the storage device.
    pub const SYNC: u16 = 0x0010;

    /// Every defined bit.
    pub const ALL_BITS: u16 = 0x001f;

    /// Whether a raw mask sets defined bits only.
    pub open spec fn valid_bits(raw: u16) -> bool {
        raw & !0x001fu16 == 0
    }

    #[verifier::type_invariant]
    closed spec fn inv(self) -> bool {
        FdFlags::valid_bits(self.bits)
    }

    /// The mask of the set.
    pub closed spec fn view(self) -> u16 {
        self.bits
    }

    /// What `from_bits` returns.
    pub closed spec fn spec_from_bits(raw: u16) -> Option<FdFlags> {
        if FdFlags::valid_bits(raw) {
            Some(FdFlags { bits: raw })
        } else {
            None
        }
    }

    /// Decodes a raw mask. A mask that sets an undefined bit is rejected.
    #[verifier::when_used_as_spec(spec_from_bits)]
    pub fn from_bits(raw: u16) -> (r: Option<FdFlags>)
        ensures
            r == FdFlags::spec_from_bits(raw),
            r is Some <==> FdFlags::valid_bits(raw),
            r is Some <==> raw <= FdFlags::ALL_BITS,
            r matches Some(flags) ==> flags@ == raw,
    {
        proof {
            FdFlags::lemma_bits_round_trip(raw);
        }
        if raw & !FdFlags::ALL_BITS == 0 {
            Some(FdFlags { bits: raw })
        } else {
            None
        }
    }

    /// The raw mask of the set. No undefined bit is set in it.
    pub fn to_bits(self) -> (r: u16)
        ensures
            r == self@,
            FdFlags::valid_bits(r),
            FdFlags::spec_from_bits(r) == Some(self),
    {
        proof {
            use_type_invariant(self);
        }
        self.bits
    }

    /// The set without any flag.
    pub fn empty() -> (r: FdFlags)
        ensures
            r@ == 0,
    {
        proof {
            lemma_mask_u16(0, 0, 0x001fu16);
        }
        FdFlags { bits: 0 }
    }

    /// Whether the set holds no flag.
    pub fn is_empty(self) -> (r: bool)
        ensures
            r == (self@ == 0),
    {
        self.bits == 0
    }

    /// The flags that are in either set.
    pub fn union(self, other: FdFlags) -> (r: FdFlags)
        ensures
            r@ == self@ | other@,
    {
        proof {
            use_type_invariant(self);
            use_type_invariant(other);
            lemma_mask_u16(self.bits, other.bits, 0x001fu16);
        }
        FdFlags { bits: self.bits | other.bits }
    }

    /// The flags that are in both sets.
    pub fn intersection(self, other: FdFlags) -> (r: FdFlags)
        ensures
            r@ == self@ & other@,
    {
        proof {
            use_type_invariant(self);
            lemma_mask_u16(self.bits, other.bits, 0x001fu16);
        }
        FdFlags { bits: self.bits & other.bits }
    }

    /// Whether every flag of `other` is in `self`.
    pub fn contains(self, other: FdFlags) -> (r: bool)
        ensures
            r == (other@ & self@ == other@),
    {
        other.bits & self.bits == other.bits
    }

    /// Two sets with the same mask are the same set.
    pub proof fn lemma_view_injective(a: FdFlags, b: FdFlags)
        requires
            a@ == b@,
        ensures
            a == b,
    {
    }

    /// Decoding a valid mask and encoding the result gives the mask back, and a
    /// mask that is not valid decodes to nothing. The valid masks are those up to
    /// `ALL_BITS`.
    pub proof fn lemma_bits_round_trip(raw: u16)
        ensures
            FdFlags::valid_bits(raw) <==> raw <= FdFlags::ALL_BITS,
            FdFlags::valid_bits(raw) ==> FdFlags::spec_from_bits(raw) is Some
                && FdFlags::spec_from_bits(raw).unwrap()@ == raw,
            !FdFlags::valid_bits(raw) ==> FdFlags::spec_from_bits(raw) is None,
    {
        assert((raw & !0x001fu16 == 0) <==> raw <= 0x001fu16) by (bit_vector);
    }
}

impl Default for FdFlags {
    fn default() -> (r: FdFlags)
        ensures
            r@ == 0,
    {
        FdFlags::empty()
    }
}

impl From<FdFlags> for u16 {
    fn from(flags: FdFlags) -> (r: u16) {
        flags.to_bits()
    }
}

impl FromSpecImpl<FdFlags> for u16 {
    open spec fn obeys_from_spec() -> bool {
        true
    }

    open spec fn from_spec(flags: FdFlags) -> u16 {
        flags@
    }
}

impl TryFrom<u16> for FdFlags {
    type Error = ();

    fn try_from(raw: u16) -> (r: Result<FdFlags, ()>)
        ensures
            r is Ok <==> FdFlags::valid_bits(raw),
            r matches Ok(flags) ==> flags@ == raw,
    {
        match FdFlags::from_bits(raw) {
            Some(flags) => Ok(flags),
            None => Err(()),
        }
    }
}

impl TryFromSpecImpl<u16> for FdFlags {
    open spec fn obeys_try_from_spec() -> bool {
        true
    }

    open spec fn try_from_spec(raw: u16) -> Result<FdFlags, ()> {
        match FdFlags::spec_from_bits(raw) {
            Some(flags) => Ok(flags),
            None => Err(()),
        }
    }
}

/// How a path is opened.
#[derive(Clone, Copy, Debug, PartialEq, Eq, Hash, Structural)]
pub struct OpenFlags {
    bits: u16,
}

impl OpenFlags {
    /// Create the file if it does not exist.
    pub const CREATE: u16 = 0x0001;

    /// Fail if the path is not a directory.
    pub const DIRECTORY: u16 = 0x0002;

    /// Fail if the file exists.
    pub const EXCL: u16 = 0x0004;

    /// Cut the file to size 0.
    pub const TRUNC: u16 = 0x0008;

    /// Every defined bit.
    pub const ALL_BITS: u16 = 0x000f;

    /// Whether a raw mask sets defined bits only.
    pub open spec fn valid_bits(raw: u16) -> bool {
        raw & !0x000fu16 == 0
    }

    #[verifier::type_invariant]
    closed spec fn inv(self) -> bool {
        OpenFlags::valid_bits(self.bits)
    }

    /// The mask of the set.
    pub closed spec fn view(self) -> u16 {
        self.bits
    }

    /// What `from_bits` returns.
    pub closed spec fn spec_from_bits(raw: u16) -> Option<OpenFlags> {
        if OpenFlags::valid_bits(raw) {
            Some(OpenFlags { bits: raw })
        } else {
            None
        }
    }

    /// Decodes a raw mask. A mask that sets an undefined bit is rejected.
    #[verifier::when_used_as_spec(spec_from_bits)]
    pub fn from_bits(raw: u16) -> (r: Option<OpenFlags>)
        ensures
            r == OpenFlags::spec_from_bits(raw),
            r is Some <==> OpenFlags::valid_bits(raw),
            r is Some <==> raw <= OpenFlags::ALL_BITS,
            r matches Some(flags) ==> flags@ == raw,
    {
        proof {
            OpenFlags::lemma_bits_round_trip(raw);
        }
        if raw & !OpenFlags::ALL_BITS == 0 {
            Some(OpenFlags { bits: raw })
        } else {
            None
        }
    }

    /// The raw mask of the set. No undefined bit is set in it.
    pub fn to_bits(self) -> (r: u16)
        ensures
            r == self@,
            OpenFlags::valid_bits(r),
            OpenFlags::spec_from_bits(r) == Some(self),
    {
        proof {
            use_type_invariant(self);
        }
        self.bits
    }

    /// The set without any flag.
    pub fn empty() -> (r: OpenFlags)
        ensures
            r@ == 0,
    {
        proof {
            lemma_mask_u16(0, 0, 0x000fu16);
        }
        OpenFlags { bits: 0 }
    }

    /// Whether the set holds no flag.
    pub fn is_empty(self) -> (r: bool)
        ensures
            r == (self@ == 0),
    {
        self.bits == 0
    }

    /// The flags that are in either set.
    pub fn union(self, other: OpenFlags) -> (r: OpenFlags)
        ensures
            r@ == self@ | other@,
    {
        proof {
            use_type_invariant(self);
            use_type_invariant(other);
            lemma_mask_u16(self.bits, other.bits, 0x000fu16);
        }
        OpenFlags { bits: self.bits | other.bits }
    }

    /// The flags that are in both sets.
    pub fn intersection(self, other: OpenFlags) -> (r: OpenFlags)
        ensures
            r@ == self@ & other@,
    {
        proof {
            use_type_invariant(self);
            lemma_mask_u16(self.bits, other.bits, 0x000fu16);
        }
        OpenFlags { bits: self.bits & other.bits }
    }

    /// Whether every flag of `other` is in `self`.
    pub fn contains(self, other: OpenFlags) -> (r: bool)
        ensures
            r == (other@ & self@ == other@),
    {
        other.bits & self.bits == other.bits
    }

    /// Two sets with the same mask are the same set.
    pub proof fn lemma_view_injective(a: OpenFlags, b: OpenFlags)
        requires
            a@ == b@,
        ensures
            a == b,
    {
    }

    /// Decoding a valid mask and encoding the result gives the mask back, and a
    /// mask that is not valid decodes to nothing. The valid masks are those up to
    /// `ALL_BITS`.
    pub proof fn lemma_bits_round_trip(raw: u16)
        ensures
            OpenFlags::valid_bits(raw) <==> raw <= OpenFlags::ALL_BITS,
            OpenFlags::valid_bits(raw) ==> OpenFlags::spec_from_bits(raw) is Some
                && OpenFlags::spec_from_bits(raw).unwrap()@ == raw,
            !OpenFlags::valid_bits(raw) ==> OpenFlags::spec_from_bits(raw) is None,
    {
        assert((raw & !0x000fu16 == 0) <==> raw <= 0x000fu16) by (bit_vector);
    }
}

impl Default for OpenFlags {
    fn default() -> (r: OpenFlags)
        ensures
            r@ == 0,
    {
        OpenFlags::empty()
    }
}

impl From<OpenFlags> for u16 {
    fn from(flags: OpenFlags) -> (r: u16) {
        flags.to_bits()
    }
}

impl FromSpecImpl<OpenFlags> for u16 {
    open spec fn obeys_from_spec() -> bool {
        true
    }

    open spec fn from_spec(flags: OpenFlags) -> u16 {
        flags@
    }
}

impl TryFrom<u16> for OpenFlags {
    type Error = ();

    fn try_from(raw: u16) -> (r: Result<OpenFlags, ()>)
        ensures
            r is Ok <==> OpenFlags::valid_bits(raw),
            r matches Ok(flags) ==> flags@ == raw,
    {
        match OpenFlags::from_bits(raw) {
            Some(flags) => Ok(flags),
            None => Err(()),
        }
    }
}

impl TryFromSpecImpl<u16> for OpenFlags {
    open spec fn obeys_try_from_spec() -> bool {
        true
    }

    open spec fn try_from_spec(raw: u16) -> Result<OpenFlags, ()> {
        match OpenFlags::spec_from_bits(raw) {
            Some(flags) => Ok(flags),
            None => Err(()),
        }
    }
}

/// How a path is resolved.
#[derive(Clone, Copy, Debug, PartialEq, Eq, Hash, Structural)]
pub struct LookupFlags {
    bits: u32,
}

impl LookupFlags {
    /// Follow symbolic links.
    pub const SYMLINK_FOLLOW: u32 = 0x00000001;

    /// Every defined bit.
    pub const ALL_BITS: u32 = 0x00000001;

    /// Whether a raw mask sets defined bits only.
    pub open spec fn valid_bits(raw: u32) -> bool {
        raw & !0x00000001u32 == 0
    }

    #[verifier::type_invariant]
    closed spec fn inv(self) -> bool {
        LookupFlags::valid_bits(self.bits)
    }

    /// The mask of the set.
    pub closed spec fn view(self) -> u32 {
        self.bits
    }

    /// What `from_bits` returns.
    pub closed spec fn spec_from_bits(raw: u32) -> Option<LookupFlags> {
        if LookupFlags::valid_bits(raw) {
            Some(LookupFlags { bits: raw })
        } else {
            None
        }
    }

    /// Decodes a raw mask. A mask that sets an undefined bit is rejected.
    #[verifier::when_used_as_spec(spec_from_bits)]
    pub fn from_bits(raw: u32) -> (r: Option<LookupFlags>)
        ensures
            r == LookupFlags::spec_from_bits(raw),
            r is Some <==> LookupFlags::valid_bits(raw),
            r is Some <==> raw <= LookupFlags::ALL_BITS,
            r matches Some(flags) ==> flags@ == raw,
    {
        proof {
            LookupFlags::lemma_bits_round_trip(raw);
        }
        if raw & !LookupFlags::ALL_BITS == 0 {
            Some(LookupFlags { bits: raw })
        } else {
            None
        }
    }

    /// The raw mask of the set. No undefined bit is set in it.
    pub fn to_bits(self) -> (r: u32)
        ensures
            r == self@,
            LookupFlags::valid_bits(r),
            LookupFlags::spec_from_bits(r) == Some(self),
    {
        proof {
            use_type_invariant(self);
        }
        self.bits
    }

    /// The set without any flag.
    pub fn empty() -> (r: LookupFlags)
        ensures
            r@ == 0,
    {
        proof {
            lemma_mask_u32(0, 0, 0x00000001u32);
        }
        LookupFlags { bits: 0 }
    }

    /// Whether the set holds no flag.
    pub fn is_empty(self) -> (r: bool)
        ensures
            r == (self@ == 0),
    {
        self.bits == 0
    }

    /// The flags that are in either set.
    pub fn union(self, other: LookupFlags) -> (r: LookupFlags)
        ensures
            r@ == self@ | other@,
    {
        proof {
            use_type_invariant(self);
            use_type_invariant(other);
            lemma_mask_u32(self.bits, other.bits, 0x00000001u32);
        }
        LookupFlags { bits: self.bits | other.bits }
    }

    /// The flags that are in both sets.
    pub fn intersection(self, other: LookupFlags) -> (r: LookupFlags)
        ensures
            r@ == self@ & other@,
    {
        proof {
            use_type_invariant(self);
            lemma_mask_u32(self.bits, other.bits, 0x00000001u32);
        }
        LookupFlags { bits: self.bits & other.bits }
    }

    /// Whether every flag of `other` is in `self`.
    pub fn contains(self, other: LookupFlags) -> (r: bool)
        ensures
            r == (other@ & self@ == other@),
    {
        other.bits & self.bits == other.bits
    }

    /// Two sets with the same mask are the same set.
    pub proof fn lemma_view_injective(a: LookupFlags, b: LookupFlags)
        requires
            a@ == b@,
        ensures
            a == b,
    {
    }

    /// Decoding a valid mask and encoding the result gives the mask back, and a
    /// mask that is not valid decodes to nothing. The valid masks are those up to
    /// `ALL_BITS`.
    pub proof fn lemma_bits_round_trip(raw: u32)
        ensures
            LookupFlags::valid_bits(raw) <==> raw <= LookupFlags::ALL_BITS,
            LookupFlags::valid_bits(raw) ==> LookupFlags::spec_from_bits(raw) is Some
                && LookupFlags::spec_from_bits(raw).unwrap()@ == raw,
            !LookupFlags::valid_bits(raw) ==> LookupFlags::spec_from_bits(raw) is None,
    {
        assert((raw & !0x00000001u32 == 0) <==> raw <= 0x00000001u32) by (bit_vector);
    }
}

impl Default for LookupFlags {
    fn default() -> (r: LookupFlags)
        ensures
            r@ == 0,
    {
        LookupFlags::empty()
    }
}

impl From<LookupFlags> for u32 {
    fn from(flags: LookupFlags) -> (r: u32) {
        flags.to_bits()
    }
}

impl FromSpecImpl<LookupFlags> for u32 {
    open spec fn obeys_from_spec() -> bool {
        true
    }

    open spec fn from_spec(flags: LookupFlags) -> u32 {
        flags@
    }
}

impl TryFrom<u32> for LookupFlags {
    type Error = ();

    fn try_from(raw: u32) -> (r: Result<LookupFlags, ()>)
        ensures
            r is Ok <==> LookupFlags::valid_bits(raw),
            r matches Ok(flags) ==> flags@ == raw,
    {
        match LookupFlags::from_bits(raw) {
            Some(flags) => Ok(flags),
            None => Err(()),
        }
    }
}

impl TryFromSpecImpl<u32> for LookupFlags {
    open spec fn obeys_try_from_spec() -> bool {
        true
    }

    open spec fn try_from_spec(raw: u32) -> Result<LookupFlags, ()> {
        match LookupFlags::spec_from_bits(raw) {
            Some(flags) => Ok(flags),
            None => Err(()),
        }
    }
}

/// Which timestamps of a file are set, and to what.
#[derive(Clone, Copy, Debug, PartialEq, Eq, Hash, Structural)]
pub struct SetTimeFlags {
    bits: u16,
}

impl SetTimeFlags {
    /// Set the access time to the value given.
    pub const ATIME: u16 = 0x0001;

    /// Set the access time to the present.
    pub const ATIME_NOW: u16 = 0x0002;

    /// Set the modification time to the value given.
    pub const MTIME: u16 = 0x0004;

    /// Set the modification time to the present.
    pub const MTIME_NOW: u16 = 0x0008;

    /// Every defined bit.
    pub const ALL_BITS: u16 = 0x000f;

    /// Whether a raw mask sets defined bits only.
    pub open spec fn valid_bits(raw: u16) -> bool {
        raw & !0x000fu16 == 0
    }

    #[verifier::type_invariant]
    closed spec fn inv(self) -> bool {
        SetTimeFlags::valid_bits(self.bits)
    }

    /// The mask of the set.
    pub closed spec fn view(self) -> u16 {
        self.bits
    }

    /// What `from_bits` returns.
    pub closed spec fn spec_from_bits(raw: u16) -> Option<SetTimeFlags> {
        if SetTimeFlags::valid_bits(raw) {
            Some(SetTimeFlags { bits: raw })
        } else {
            None
        }
    }

    /// Decodes a raw mask. A mask that sets an undefined bit is rejected.
    #[verifier::when_used_as_spec(spec_from_bits)]
    pub fn from_bits(raw: u16) -> (r: Option<SetTimeFlags>)
        ensures
            r == SetTimeFlags::spec_from_bits(raw),
            r is Some <==> SetTimeFlags::valid_bits(raw),
            r is Some <==> raw <= SetTimeFlags::ALL_BITS,
            r matches Some(flags) ==> flags@ == raw,
    {
        proof {
            SetTimeFlags::lemma_bits_round_trip(raw);
        }
        if raw & !SetTimeFlags::ALL_BITS == 0 {
            Some(SetTimeFlags { bits: raw })
        } else {
            None
        }
    }

    /// The raw mask of the set. No undefined bit is set in it.
    pub fn to_bits(self) -> (r: u16)
        ensures
            r == self@,
            SetTimeFlags::valid_bits(r),
            SetTimeFlags::spec_from_bits(r) == Some(self),
    {
        proof {
            use_type_invariant(self);
        }
        self.bits
    }

    /// The set without any flag.
    pub fn empty() -> (r: SetTimeFlags)
        ensures
            r@ == 0,
    {
        proof {
            lemma_mask_u16(0, 0, 0x000fu16);
        }
        SetTimeFlags { bits: 0 }
    }

    /// Whether the set holds no flag.
    pub fn is_empty(self) -> (r: bool)
        ensures
            r == (self@ == 0),
    {
        self.bits == 0
    }

    /// The flags that are in either set.
    pub fn union(self, other: SetTimeFlags) -> (r: SetTimeFlags)
        ensures
            r@ == self@ | other@,
    {
        proof {
            use_type_invariant(self);
            use_type_invariant(other);
            lemma_mask_u16(self.bits, other.bits, 0x000fu16);
        }
        SetTimeFlags { bits: self.bits | other.bits }
    }

    /// The flags that are in both sets.
    pub fn intersection(self, other: SetTimeFlags) -> (r: SetTimeFlags)
        ensures
            r@ == self@ & other@,
    {
        proof {
            use_type_invariant(self);
            lemma_mask_u16(self.bits, other.bits, 0x000fu16);
        }
        SetTimeFlags { bits: self.bits & other.bits }
    }

    /// Whether every flag of `other` is in `self`.
    pub fn contains(self, other: SetTimeFlags) -> (r: bool)
        ensures
            r == (other@ & self@ == other@),
    {
        other.bits & self.bits == other.bits
    }

    /// Two sets with the same mask are the same set.
    pub proof fn lemma_view_injective(a: SetTimeFlags, b: SetTimeFlags)
        requires
            a@ == b@,
        ensures
            a == b,
    {
    }

    /// Decoding a valid mask and encoding the result gives the mask back, and a
    /// mask that is not valid decodes to nothing. The valid masks are those up to
    /// `ALL_BITS`.
    pub proof fn lemma_bits_round_trip(raw: u16)
        ensures
            SetTimeFlags::valid_bits(raw) <==> raw <= SetTimeFlags::ALL_BITS,
            SetTimeFlags::valid_bits(raw) ==> SetTimeFlags::spec_from_bits(raw) is Some
                && SetTimeFlags::spec_from_bits(raw).unwrap()@ == raw,
            !SetTimeFlags::valid_bits(raw) ==> SetTimeFlags::spec_from_bits(raw) is None,
    {
        assert((raw & !0x000fu16 == 0) <==> raw <= 0x000fu16) by (bit_vector);
    }
}

impl From<SetTimeFlags> for u16 {
    fn from(flags: SetTimeFlags) -> (r: u16) {
        flags.to_bits()
    }
}

impl FromSpecImpl<SetTimeFlags> for u16 {
    open spec fn obeys_from_spec() -> bool {
        true
    }

    open spec fn from_spec(flags: SetTimeFlags) -> u16 {
        flags@
    }
}

impl TryFrom<u16> for SetTimeFlags {
    type Error = ();

    fn try_from(raw: u16) -> (r: Result<SetTimeFlags, ()>)
        ensures
            r is Ok <==> SetTimeFlags::valid_bits(raw),
            r matches Ok(flags) ==> flags@ == raw,
    {
        match SetTimeFlags::from_bits(raw) {
            Some(flags) => Ok(flags),
            None => Err(()),
        }
    }
}

impl TryFromSpecImpl<u16> for SetTimeFlags {
    open spec fn obeys_try_from_spec() -> bool {
        true
    }

    open spec fn try_from_spec(raw: u16) -> Result<SetTimeFlags, ()> {
        match SetTimeFlags::spec_from_bits(raw) {
            Some(flags) => Ok(flags),
            None => Err(()),
        }
    }
}

/// Which directions of a socket are shut down.
#[derive(Clone, Copy, Debug, PartialEq, Eq, Hash, Structural)]
pub struct SdFlags {
    bits: u8,
}

impl SdFlags {
    /// No more data is received.
    pub const RD: u8 = 0x01;

    /// No more data is sent.
    pub const WR: u8 = 0x02;

    /// Every defined bit.
    pub const ALL_BITS: u8 = 0x03;

    /// Whether a raw mask sets defined bits only.
    pub open spec fn valid_bits(raw: u8) -> bool {
        raw & !0x03u8 == 0
    }

    #[verifier::type_invariant]
    closed spec fn inv(self) -> bool {
        SdFlags::valid_bits(self.bits)
    }

    /// The mask of the set.
    pub closed spec fn view(self) -> u8 {
        self.bits
    }

    /// What `from_bits` returns.
    pub closed spec fn spec_from_bits(raw: u8) -> Option<SdFlags> {
        if SdFlags::valid_bits(raw) {
            Some(SdFlags { bits: raw })
        } else {
            None
        }
    }

    /// Decodes a raw mask. A mask that sets an undefined bit is rejected.
    #[verifier::when_used_as_spec(spec_from_bits)]
    pub fn from_bits(raw: u8) -> (r: Option<SdFlags>)
        ensures
            r == SdFlags::spec_from_bits(raw),
            r is Some <==> SdFlags::valid_bits(raw),
            r is Some <==> raw <= SdFlags::ALL_BITS,
            r matches Some(flags) ==> flags@ == raw,
    {
        proof {
            SdFlags::lemma_bits_round_trip(raw);
        }
        if raw & !SdFlags::ALL_BITS == 0 {
            Some(SdFlags { bits: raw })
        } else {
            None
        }
    }

    /// The raw mask of the set. No undefined bit is set in it.
    pub fn to_bits(self) -> (r: u8)
        ensures
            r == self@,
            SdFlags::valid_bits(r),
            SdFlags::spec_from_bits(r) == Some(self),
    {
        proof {
            use_type_invariant(self);
        }
        self.bits
    }

    /// The set without any flag.
    pub fn empty() -> (r: SdFlags)
        ensures
            r@ == 0,
    {
        proof {
            lemma_mask_u8(0, 0, 0x03u8);
        }
        SdFlags { bits: 0 }
    }

    /// Whether the set holds no flag.
    pub fn is_empty(self) -> (r: bool)
        ensures
            r == (self@ == 0),
    {
        self.bits == 0
    }

    /// The flags that are in either set.
    pub fn union(self, other: SdFlags) -> (r: SdFlags)
        ensures
            r@ == self@ | other@,
    {
        proof {
            use_type_invariant(self);
            use_type_invariant(other);
            lemma_mask_u8(self.bits, other.bits, 0x03u8);
        }
        SdFlags { bits: self.bits | other.bits }
    }

    /// The flags that are in both sets.
    pub fn intersection(self, other: SdFlags) -> (r: SdFlags)
        ensures
            r@ == self@ & other@,
    {
        proof {
            use_type_invariant(self);
            lemma_mask_u8(self.bits, other.bits, 0x03u8);
        }
        SdFlags { bits: self.bits & other.bits }
    }

    /// Whether every flag of `other` is in `self`.
    pub fn contains(self, other: SdFlags) -> (r: bool)
        ensures
            r == (other@ & self@ == other@),
    {
        other.bits & self.bits == other.bits
    }

    /// Two sets with the same mask are the same set.
    pub proof fn lemma_view_injective(a: SdFlags, b: SdFlags)
        requires
            a@ == b@,
        ensures
            a == b,
    {
    }

    /// Decoding a valid mask and encoding the result gives the mask back, and a
    /// mask that is not valid decodes to nothing. The valid masks are those up to
    /// `ALL_BITS`.
    pub proof fn lemma_bits_round_trip(raw: u8)
        ensures
            SdFlags::valid_bits(raw) <==> raw <= SdFlags::ALL_BITS,
            SdFlags::valid_bits(raw) ==> SdFlags::spec_from_bits(raw) is Some
                && SdFlags::spec_from_bits(raw).unwrap()@ == raw,
            !SdFlags::valid_bits(raw) ==> SdFlags::spec_from_bits(raw) is None,
    {
        assert((raw & !0x03u8 == 0) <==> raw <= 0x03u8) by (bit_vector);
    }
}

impl Default for SdFlags {
    fn default() -> (r: SdFlags)
        ensures
            r@ == 0,
    {
        SdFlags::empty()
    }
}

impl From<SdFlags> for u8 {
    fn from(flags: SdFlags) -> (r: u8) {
        flags.to_bits()
    }
}

impl FromSpecImpl<SdFlags> for u8 {
    open spec fn obeys_from_spec() -> bool {
        true
    }

    open spec fn from_spec(flags: SdFlags) -> u8 {
        flags@
    }
}

impl TryFrom<u8> for SdFlags {
    type Error = ();

    fn try_from(raw: u8) -> (r: Result<SdFlags, ()>)
        ensures
            r is Ok <==> SdFlags::valid_bits(raw),
            r matches Ok(flags) ==> flags@ == raw,
    {
        match SdFlags::from_bits(raw) {
            Some(flags) => Ok(flags),
            None => Err(()),
        }
    }
}

impl TryFromSpecImpl<u8> for SdFlags {
    open spec fn obeys_try_from_spec() -> bool {
        true
    }

    open spec fn try_from_spec(raw: u8) -> Result<SdFlags, ()> {
        match SdFlags::spec_from_bits(raw) {
            Some(flags) => Ok(flags),
            None => Err(()),
        }
    }
}

/// The flags of a send. None is defined, so the only valid mask is zero.
#[derive(Clone, Copy, Debug, PartialEq, Eq, Hash, Structural)]
pub struct SiFlags {
    bits: u16,
}

impl SiFlags {
    /// No flag is defined: the mask is zero.
    pub const MUST_BE_ZERO: u16 = 0x0000;

    /// Every defined bit.
    pub const ALL_BITS: u16 = 0x0000;

    /// Whether a raw mask sets defined bits only.
    pub open spec fn valid_bits(raw: u16) -> bool {
        raw & !0x0000u16 == 0
    }

    #[verifier::type_invariant]
    closed spec fn inv(self) -> bool {
        SiFlags::valid_bits(self.bits)
    }

    /// The mask of the set.
    pub closed spec fn view(self) -> u16 {
        self.bits
    }

    /// What `from_bits` returns.
    pub closed spec fn spec_from_bits(raw: u16) -> Option<SiFlags> {
        if SiFlags::valid_bits(raw) {
            Some(SiFlags { bits: raw })
        } else {
            None
        }
    }

    /// Decodes a raw mask. A mask that sets an undefined bit is rejected.
    #[verifier::when_used_as_spec(spec_from_bits)]
    pub fn from_bits(raw: u16) -> (r: Option<SiFlags>)
        ensures
            r == SiFlags::spec_from_bits(raw),
            r is Some <==> SiFlags::valid_bits(raw),
            r is Some <==> raw <= SiFlags::ALL_BITS,
            r matches Some(flags) ==> flags@ == raw,
    {
        proof {
            SiFlags::lemma_bits_round_trip(raw);
        }
        if raw & !SiFlags::ALL_BITS == 0 {
            Some(SiFlags { bits: raw })
        } else {
            None
        }
    }

    /// The raw mask of the set. No undefined bit is set in it.
    pub fn to_bits(self) -> (r: u16)
        ensures
            r == self@,
            SiFlags::valid_bits(r),
            SiFlags::spec_from_bits(r) == Some(self),
    {
        proof {
            use_type_invariant(self);
        }
        self.bits
    }

    /// The set without any flag.
    pub fn empty() -> (r: SiFlags)
        ensures
            r@ == 0,
    {
        proof {
            lemma_mask_u16(0, 0, 0x0000u16);
        }
        SiFlags { bits: 0 }
    }

    /// Whether the set holds no flag.
    pub fn is_empty(self) -> (r: bool)
        ensures
            r == (self@ == 0),
    {
        self.bits == 0
    }

    /// Two sets with the same mask are the same set.
    pub proof fn lemma_view_injective(a: SiFlags, b: SiFlags)
        requires
            a@ == b@,
        ensures
            a == b,
    {
    }

    /// Decoding a valid mask and encoding the result gives the mask back, and a
    /// mask that is not valid decodes to nothing. The valid masks are those up to
    /// `ALL_BITS`.
    pub proof fn lemma_bits_round_trip(raw: u16)
        ensures
            SiFlags::valid_bits(raw) <==> raw <= SiFlags::ALL_BITS,
            SiFlags::valid_bits(raw) ==> SiFlags::spec_from_bits(raw) is Some
                && SiFlags::spec_from_bits(raw).unwrap()@ == raw,
            !SiFlags::valid_bits(raw) ==> SiFlags::spec_from_bits(raw) is None,
    {
        assert((raw & !0x0000u16 == 0) <==> raw <= 0x0000u16) by (bit_vector);
    }
}

impl Default for SiFlags {
    fn default() -> (r: SiFlags)
        ensures
            r@ == 0,
    {
        SiFlags::empty()
    }
}

impl From<SiFlags> for u16 {
    fn from(flags: SiFlags) -> (r: u16) {
        flags.to_bits()
    }
}

impl FromSpecImpl<SiFlags> for u16 {
    open spec fn obeys_from_spec() -> bool {
        true
    }

    open spec fn from_spec(flags: SiFlags) -> u16 {
        flags@
    }
}

impl TryFrom<u16> for SiFlags {
    type Error = ();

    fn try_from(raw: u16) -> (r: Result<SiFlags, ()>)
        ensures
            r is Ok <==> SiFlags::valid_bits(raw),
            r matches Ok(flags) ==> flags@ == raw,
    {
        match SiFlags::from_bits(raw) {
            Some(flags) => Ok(flags),
            None => Err(()),
        }
    }
}

impl TryFromSpecImpl<u16> for SiFlags {
    open spec fn obeys_try_from_spec() -> bool {
        true
    }

    open spec fn try_from_spec(raw: u16) -> Result<SiFlags, ()> {
        match SiFlags::spec_from_bits(raw) {
            Some(flags) => Ok(flags),
            None => Err(()),
        }
    }
}

/// The flags of a receive.
#[derive(Clone, Copy, Debug, PartialEq, Eq, Hash, Structural)]
pub struct RiFlags {
    bits: u16,
}

impl RiFlags {
    /// Return the message and leave it in the queue.
    pub const RECV_PEEK: u16 = 0x0001;

    /// Wait until the whole amount has arrived.
    pub const RECV_WAITALL: u16 = 0x0002;

    /// Every defined bit.
    pub const ALL_BITS: u16 = 0x0003;

    /// Whether a raw mask sets defined bits only.
    pub open spec fn valid_bits(raw: u16) -> bool {
        raw & !0x0003u16 == 0
    }

    #[verifier::type_invariant]
    closed spec fn inv(self) -> bool {
        RiFlags::valid_bits(self.bits)
    }

    /// The mask of the set.
    pub closed spec fn view(self) -> u16 {
        self.bits
    }

    /// What `from_bits` returns.
    pub closed spec fn spec_from_bits(raw: u16) -> Option<RiFlags> {
        if RiFlags::valid_bits(raw) {
            Some(RiFlags { bits: raw })
        } else {
            None
        }
    }

    /// Decodes a raw mask. A mask that sets an undefined bit is rejected.
    #[verifier::when_used_as_spec(spec_from_bits)]
    pub fn from_bits(raw: u16) -> (r: Option<RiFlags>)
        ensures
            r == RiFlags::spec_from_bits(raw),
            r is Some <==> RiFlags::valid_bits(raw),
            r is Some <==> raw <= RiFlags::ALL_BITS,
            r matches Some(flags) ==> flags@ == raw,
    {
        proof {
            RiFlags::lemma_bits_round_trip(raw);
        }
        if raw & !RiFlags::ALL_BITS == 0 {
            Some(RiFlags { bits: raw })
        } else {
            None
        }
    }

    /// The raw mask of the set. No undefined bit is set in it.
    pub fn to_bits(self) -> (r: u16)
        ensures
            r == self@,
            RiFlags::valid_bits(r),
            RiFlags::spec_from_bits(r) == Some(self),
    {
        proof {
            use_type_invariant(self);
        }
        self.bits
    }

    /// The set without any flag.
    pub fn empty() -> (r: RiFlags)
        ensures
            r@ == 0,
    {
        proof {
            lemma_mask_u16(0, 0, 0x0003u16);
        }
        RiFlags { bits: 0 }
    }

    /// Whether the set holds no flag.
    pub fn is_empty(self) -> (r: bool)
        ensures
            r == (self@ == 0),
    {
        self.bits == 0
    }

    /// The flags that are in either set.
    pub fn union(self, other: RiFlags) -> (r: RiFlags)
        ensures
            r@ == self@ | other@,
    {
        proof {
            use_type_invariant(self);
            use_type_invariant(other);
            lemma_mask_u16(self.bits, other.bits, 0x0003u16);
        }
        RiFlags { bits: self.bits | other.bits }
    }

    /// The flags that are in both sets.
    pub fn intersection(self, other: RiFlags) -> (r: RiFlags)
        ensures
            r@ == self@ & other@,
    {
        proof {
            use_type_invariant(self);
            lemma_mask_u16(self.bits, other.bits, 0x0003u16);
        }
        RiFlags { bits: self.bits & other.bits }
    }

    /// Whether every flag of `other` is in `self`.
    pub fn contains(self, other: RiFlags) -> (r: bool)
        ensures
            r == (other@ & self@ == other@),
    {
        other.bits & self.bits == other.bits
    }

    /// Two sets with the same mask are the same set.
    pub proof fn lemma_view_injective(a: RiFlags, b: RiFlags)
        requires
            a@ == b@,
        ensures
            a == b,
    {
    }

    /// Decoding a valid mask and encoding the result gives the mask back, and a
    /// mask that is not valid decodes to nothing. The valid masks are those up to
    /// `ALL_BITS`.
    pub proof fn lemma_bits_round_trip(raw: u16)
        ensures
            RiFlags::valid_bits(raw) <==> raw <= RiFlags::ALL_BITS,
            RiFlags::valid_bits(raw) ==> RiFlags::spec_from_bits(raw) is Some
                && RiFlags::spec_from_bits(raw).unwrap()@ == raw,
            !RiFlags::valid_bits(raw) ==> RiFlags::spec_from_bits(raw) is None,
    {
        assert((raw & !0x0003u16 == 0) <==> raw <= 0x0003u16) by (bit_vector);
    }
}

impl Default for RiFlags {
    fn default() -> (r: RiFlags)
        ensures
            r@ == 0,
    {
        RiFlags::empty()
    }
}

impl From<RiFlags> for u16 {
    fn from(flags: RiFlags) -> (r: u16) {
        flags.to_bits()
    }
}

impl FromSpecImpl<RiFlags> for u16 {
    open spec fn obeys_from_spec() -> bool {
        true
    }

    open spec fn from_spec(flags: RiFlags) -> u16 {
        flags@
    }
}

impl TryFrom<u16> for RiFlags {
    type Error = ();

    fn try_from(raw: u16) -> (r: Result<RiFlags, ()>)
        ensures
            r is Ok <==> RiFlags::valid_bits(raw),
            r matches Ok(flags) ==> flags@ == raw,
    {
        match RiFlags::from_bits(raw) {
            Some(flags) => Ok(flags),
            None => Err(()),
        }
    }
}

impl TryFromSpecImpl<u16> for RiFlags {
    open spec fn obeys_try_from_spec() -> bool {
        true
    }

    open spec fn try_from_spec(raw: u16) -> Result<RiFlags, ()> {
        match RiFlags::spec_from_bits(raw) {
            Some(flags) => Ok(flags),
            None => Err(()),
        }
    }
}

/// What a receive reports.
#[derive(Clone, Copy, Debug, PartialEq, Eq, Hash, Structural)]
pub struct RoFlags {
    bits: u16,
}

impl RoFlags {
    /// The message was cut short.
    pub const RECV_DATA_TRUNCATED: u16 = 0x0001;

    /// Every defined bit.
    pub const ALL_BITS: u16 = 0x0001;

    /// Whether a raw mask sets defined bits only.
    pub open spec fn valid_bits(raw: u16) -> bool {
        raw & !0x0001u16 == 0
    }

    #[verifier::type_invariant]
    closed spec fn inv(self) -> bool {
        RoFlags::valid_bits(self.bits)
    }

    /// The mask of the set.
    pub closed spec fn view(self) -> u16 {
        self.bits
    }

    /// What `from_bits` returns.
    pub closed spec fn spec_from_bits(raw: u16) -> Option<RoFlags> {
        if RoFlags::valid_bits(raw) {
            Some(RoFlags { bits: raw })
        } else {
            None
        }
    }

    /// Decodes a raw mask. A mask that sets an undefined bit is rejected.
    #[verifier::when_used_as_spec(spec_from_bits)]
    pub fn from_bits(raw: u16) -> (r: Option<RoFlags>)
        ensures
            r == RoFlags::spec_from_bits(raw),
            r is Some <==> RoFlags::valid_bits(raw),
            r is Some <==> raw <= RoFlags::ALL_BITS,
            r matches Some(flags) ==> flags@ == raw,
    {
        proof {
            RoFlags::lemma_bits_round_trip(raw);
        }
        if raw & !RoFlags::ALL_BITS == 0 {
            Some(RoFlags { bits: raw })
        } else {
            None
        }
    }

    /// The raw mask of the set. No undefined bit is set in it.
    pub fn to_bits(self) -> (r: u16)
        ensures
            r == self@,
            RoFlags::valid_bits(r),
            RoFlags::spec_from_bits(r) == Some(self),
    {
        proof {
            use_type_invariant(self);
        }
        self.bits
    }

    /// The set without any flag.
    pub fn empty() -> (r: RoFlags)
        ensures
            r@ == 0,
    {
        proof {
            lemma_mask_u16(0, 0, 0x0001u16);
        }
        RoFlags { bits: 0 }
    }

    /// Whether the set holds no flag.
    pub fn is_empty(self) -> (r: bool)
        ensures
            r == (self@ == 0),
    {
        self.bits == 0
    }

    /// The flags that are in either set.
    pub fn union(self, other: RoFlags) -> (r: RoFlags)
        ensures
            r@ == self@ | other@,
    {
        proof {
            use_type_invariant(self);
            use_type_invariant(other);
            lemma_mask_u16(self.bits, other.bits, 0x0001u16);
        }
        RoFlags { bits: self.bits | other.bits }
    }

    /// The flags that are in both sets.
    pub fn intersection(self, other: RoFlags) -> (r: RoFlags)
        ensures
            r@ == self@ & other@,
    {
        proof {
            use_type_invariant(self);
            lemma_mask_u16(self.bits, other.bits, 0x0001u16);
        }
        RoFlags { bits: self.bits & other.bits }
    }

    /// Whether every flag of `other` is in `self`.
    pub fn contains(self, other: RoFlags) -> (r: bool)
        ensures
            r == (other@ & self@ == other@),
    {
        other.bits & self.bits == other.bits
    }

    /// Two sets with the same mask are the same set.
    pub proof fn lemma_view_injective(a: RoFlags, b: RoFlags)
        requires
            a@ == b@,
        ensures
            a == b,
    {
    }

    /// Decoding a valid mask and encoding the result gives the mask back, and a
    /// mask that is not valid decodes to nothing. The valid masks are those up to
    /// `ALL_BITS`.
    pub proof fn lemma_bits_round_trip(raw: u16)
        ensures
            RoFlags::valid_bits(raw) <==> raw <= RoFlags::ALL_BITS,
            RoFlags::valid_bits(raw) ==> RoFlags::spec_from_bits(raw) is Some
                && RoFlags::spec_from_bits(raw).unwrap()@ == raw,
            !RoFlags::valid_bits(raw) ==> RoFlags::spec_from_bits(raw) is None,
    {
        assert((raw & !0x0001u16 == 0) <==> raw <= 0x0001u16) by (bit_vector);
    }
}

impl Default for RoFlags {
    fn default() -> (r: RoFlags)
        ensures
            r@ == 0,
    {
        RoFlags::empty()
    }
}

impl From<RoFlags> for u16 {
    fn from(flags: RoFlags) -> (r: u16) {
        flags.to_bits()
    }
}

impl FromSpecImpl<RoFlags> for u16 {
    open spec fn obeys_from_spec() -> bool {
        true
    }

    open spec fn from_spec(flags: RoFlags) -> u16 {
        flags@
    }
}

impl TryFrom<u16> for RoFlags {
    type Error = ();

    fn try_from(raw: u16) -> (r: Result<RoFlags, ()>)
        ensures
            r is Ok <==> RoFlags::valid_bits(raw),
            r matches Ok(flags) ==> flags@ == raw,
    {
        match RoFlags::from_bits(raw) {
            Some(flags) => Ok(flags),
            None => Err(()),
        }
    }
}

impl TryFromSpecImpl<u16> for RoFlags {
    open spec fn obeys_try_from_spec() -> bool {
        true
    }

    open spec fn try_from_spec(raw: u16) -> Result<RoFlags, ()> {
        match RoFlags::spec_from_bits(raw) {
            Some(flags) => Ok(flags),
            None => Err(()),
        }
    }
}

} // verus!
