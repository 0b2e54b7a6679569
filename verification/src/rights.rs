use vstd::prelude::*;
use vstd::std_specs::convert::FromSpecImpl;
use vstd::std_specs::convert::TryFromSpecImpl;

verus! {

/// A set of rights: the operations that a descriptor may be used for.
///
/// A set is a 64-bit mask with one bit for each operation. The 28 low bits are
/// defined; bit 28 and every bit above it is reserved and is never set in a value
/// of this type. A descriptor carries two such sets, one for itself and one that
/// bounds the rights of the descriptors derived from it; neither need be a subset
/// of the other.
#[derive(Clone, Copy, Debug, PartialEq, Eq, Hash, Structural)]
pub struct Rights {
    bits: u64,
}

impl Rights {
    /// Synchronise the data of a file with the storage device.
    pub const FD_DATASYNC: u64 = 0x0000_0001;

    /// Read from a descriptor.
    pub const FD_READ: u64 = 0x0000_0002;

    /// Move the offset of a descriptor.
    pub const FD_SEEK: u64 = 0x0000_0004;

    /// Change the flags of a descriptor.
    pub const FD_FDSTAT_SET_FLAGS: u64 = 0x0000_0008;

    /// Synchronise the data and metadata of a file with the storage device.
    pub const FD_SYNC: u64 = 0x0000_0010;

    /// Read the offset of a descriptor without moving it.
    pub const FD_TELL: u64 = 0x0000_0020;

    /// Write to a descriptor.
    pub const FD_WRITE: u64 = 0x0000_0040;

    /// Give advice on the access pattern of a file.
    pub const FD_ADVISE: u64 = 0x0000_0080;

    /// Reserve space for a file.
    pub const FD_ALLOCATE: u64 = 0x0000_0100;

    /// Create a directory below a directory descriptor.
    pub const PATH_CREATE_DIRECTORY: u64 = 0x0000_0200;

    /// Create a file when opening a path.
    pub const PATH_CREATE_FILE: u64 = 0x0000_0400;

    /// Use a path as the source of a hard link.
    pub const PATH_LINK_SOURCE: u64 = 0x0000_0800;

    /// Use a path as the target of a hard link.
    pub const PATH_LINK_TARGET: u64 = 0x0000_1000;

    /// Open a path below a directory descriptor.
    pub const PATH_OPEN: u64 = 0x0000_2000;

    /// Read the entries of a directory.
    pub const FD_READDIR: u64 = 0x0000_4000;

    /// Read the contents of a symbolic link.
    pub const PATH_READLINK: u64 = 0x0000_8000;

    /// Use a path as the source of a rename.
    pub const PATH_RENAME_SOURCE: u64 = 0x0001_0000;

    /// Use a path as the target of a rename.
    pub const PATH_RENAME_TARGET: u64 = 0x0002_0000;

    /// Read the attributes of a file by path.
    pub const PATH_FILESTAT_GET: u64 = 0x0004_0000;

    /// Change the size of a file by path.
    pub const PATH_FILESTAT_SET_SIZE: u64 = 0x0008_0000;

    /// Change the timestamps of a file by path.
    pub const PATH_FILESTAT_SET_TIMES: u64 = 0x0010_0000;

    /// Read the attributes of an open file.
    pub const FD_FILESTAT_GET: u64 = 0x0020_0000;

    /// Change the size of an open file.
    pub const FD_FILESTAT_SET_SIZE: u64 = 0x0040_0000;

    /// Change the timestamps of an open file.
    pub const FD_FILESTAT_SET_TIMES: u64 = 0x0080_0000;

    /// Create a symbolic link.
    pub const PATH_SYMLINK: u64 = 0x0100_0000;

    /// Remove a directory.
    pub const PATH_REMOVE_DIRECTORY: u64 = 0x0200_0000;

    /// Unlink a file.
    pub const PATH_UNLINK_FILE: u64 = 0x0400_0000;

    /// Wait for a descriptor to become readable or writable.
    pub const POLL_FD_READWRITE: u64 = 0x0800_0000;

    /// Every defined bit: bits 0 to 27.
    pub const ALL_BITS: u64 = 0x0fff_ffff;

    /// Whether a raw mask sets defined bits only.
    pub open spec fn valid_bits(raw: u64) -> bool {
        raw & !0x0fff_ffffu64 == 0
    }

    #[verifier::type_invariant]
    closed spec fn inv(self) -> bool {
        Rights::valid_bits(self.bits)
    }

    /// The mask of the set: bit `i` is set where the set holds operation `i`.
    pub closed spec fn view(self) -> u64 {
        self.bits
    }

    /// What `from_bits` returns.
    pub closed spec fn spec_from_bits(raw: u64) -> Option<Rights> {
        if Rights::valid_bits(raw) {
            Some(Rights { bits: raw })
        } else {
            None
        }
    }

    /// What `to_bits` returns.
    pub open spec fn spec_to_bits(self) -> u64 {
        self@
    }

    /// What `empty` returns.
    pub closed spec fn spec_empty() -> Rights {
        Rights { bits: 0 }
    }

    /// What `union` returns.
    pub closed spec fn spec_union(self, other: Rights) -> Rights {
        Rights { bits: self.bits | other.bits }
    }

    /// What `intersection` returns.
    pub closed spec fn spec_intersection(self, other: Rights) -> Rights {
        Rights { bits: self.bits & other.bits }
    }

    /// What `implies` returns: whether every right of `self` is a right of `other`.
    pub open spec fn spec_implies(self, other: Rights) -> bool {
        self@ & other@ == self@
    }

    /// What `is_empty` returns.
    pub open spec fn spec_is_empty(self) -> bool {
        self@ == 0
    }

    /// Decodes a raw mask. A mask that sets a reserved bit is rejected: to accept it
    /// would let an unknown permission pass unexamined.
    #[verifier::when_used_as_spec(spec_from_bits)]
    pub fn from_bits(raw: u64) -> (r: Option<Rights>)
        ensures
            r == Rights::spec_from_bits(raw),
            r is Some <==> Rights::valid_bits(raw),
            r is Some <==> raw <= Rights::ALL_BITS,
            r matches Some(rights) ==> rights@ == raw,
    {
        assert((raw & !0x0fff_ffffu64 == 0) <==> raw <= 0x0fff_ffffu64) by (bit_vector);
        if raw & !Rights::ALL_BITS == 0 {
            Some(Rights { bits: raw })
        } else {
            None
        }
    }

    /// Decodes a raw mask and drops the reserved bits that it sets.
    pub fn from_bits_truncate(raw: u64) -> (r: Rights)
        ensures
            r@ == raw & Rights::ALL_BITS,
            Rights::valid_bits(raw) ==> r@ == raw,
    {
        assert((raw & 0x0fff_ffffu64) & !0x0fff_ffffu64 == 0) by (bit_vector);
        assert(raw & !0x0fff_ffffu64 == 0 ==> raw & 0x0fff_ffffu64 == raw) by (bit_vector);
        Rights { bits: raw & Rights::ALL_BITS }
    }

    /// The raw mask of the set. No reserved bit is set in it.
    #[verifier::when_used_as_spec(spec_to_bits)]
    pub fn to_bits(self) -> (r: u64)
        ensures
            r == self@,
            Rights::valid_bits(r),
            Rights::spec_from_bits(r) == Some(self),
    {
        proof {
            use_type_invariant(self);
        }
        self.bits
    }

    /// The set without any right.
    #[verifier::when_used_as_spec(spec_empty)]
    pub fn empty() -> (r: Rights)
        ensures
            r == Rights::spec_empty(),
            r@ == 0,
    {
        assert(0u64 & !0x0fff_ffffu64 == 0) by (bit_vector);
        Rights { bits: 0 }
    }

    /// The set of all defined rights.
    pub fn all() -> (r: Rights)
        ensures
            r@ == Rights::ALL_BITS,
    {
        assert(0x0fff_ffffu64 & !0x0fff_ffffu64 == 0) by (bit_vector);
        Rights { bits: Rights::ALL_BITS }
    }

    /// Whether the set holds no right.
    #[verifier::when_used_as_spec(spec_is_empty)]
    pub fn is_empty(self) -> (r: bool)
        ensures
            r == (self@ == 0),
    {
        self.bits == 0
    }

    /// The rights that are in either set.
    #[verifier::when_used_as_spec(spec_union)]
    pub fn union(self, other: Rights) -> (r: Rights)
        ensures
            r == self.spec_union(other),
            r@ == self@ | other@,
    {
        proof {
            use_type_invariant(self);
            use_type_invariant(other);
            Rights::lemma_valid_bits_closed(self.bits, other.bits);
        }
        Rights { bits: self.bits | other.bits }
    }

    /// The rights that are in both sets.
    #[verifier::when_used_as_spec(spec_intersection)]
    pub fn intersection(self, other: Rights) -> (r: Rights)
        ensures
            r == self.spec_intersection(other),
            r@ == self@ & other@,
    {
        proof {
            use_type_invariant(self);
            use_type_invariant(other);
            Rights::lemma_valid_bits_closed(self.bits, other.bits);
        }
        Rights { bits: self.bits & other.bits }
    }

    /// The rights of `self` that are not in `other`.
    pub fn difference(self, other: Rights) -> (r: Rights)
        ensures
            r@ == self@ & !other@,
    {
        proof {
            use_type_invariant(self);
            Rights::lemma_valid_bits_closed(self.bits, !other.bits);
        }
        Rights { bits: self.bits & !other.bits }
    }

    /// Whether every right of `self` is a right of `other`.
    #[verifier::when_used_as_spec(spec_implies)]
    pub fn implies(self, other: Rights) -> (r: bool)
        ensures
            r == (self@ & other@ == self@),
    {
        self.bits & other.bits == self.bits
    }

    /// Whether every right of `other` is a right of `self`.
    pub fn contains(self, other: Rights) -> (r: bool)
        ensures
            r == other.spec_implies(self),
    {
        other.bits & self.bits == other.bits
    }

    /// Whether the set holds every right whose bit is set in `bits`, as in
    /// `rights.has(Rights::FD_READ | Rights::FD_SEEK)`. A reserved bit is in no set.
    pub fn has(self, bits: u64) -> (r: bool)
        ensures
            r == (self@ & bits == bits),
    {
        self.bits & bits == bits
    }

    /// A mask is valid exactly when it is below two to the power of 28.
    pub proof fn lemma_valid_bits_bound(raw: u64)
        ensures
            Rights::valid_bits(raw) <==> raw <= Rights::ALL_BITS,
    {
        assert((raw & !0x0fff_ffffu64 == 0) <==> raw <= 0x0fff_ffffu64) by (bit_vector);
    }

    /// A mask in which bit 28 or a higher bit is set is not valid.
    pub proof fn lemma_reserved_bit_is_invalid(raw: u64, bit: u64)
        requires
            28 <= bit < 64,
            (raw >> bit) & 1 == 1,
        ensures
            !Rights::valid_bits(raw),
    {
        assert(28 <= bit < 64 && (raw >> bit) & 1 == 1 ==> raw & !0x0fff_ffffu64 != 0)
            by (bit_vector);
    }

    /// Union and intersection of valid masks are valid, and so is the intersection
    /// of a valid mask with any mask.
    pub proof fn lemma_valid_bits_closed(a: u64, b: u64)
        requires
            Rights::valid_bits(a),
        ensures
            Rights::valid_bits(a & b),
            Rights::valid_bits(b) ==> Rights::valid_bits(a | b),
    {
        assert(a & !0x0fff_ffffu64 == 0 ==> (a & b) & !0x0fff_ffffu64 == 0) by (bit_vector);
        assert(a & !0x0fff_ffffu64 == 0 && b & !0x0fff_ffffu64 == 0 ==> (a | b) & !0x0fff_ffffu64
            == 0) by (bit_vector);
    }

    /// Two sets with the same mask are the same set.
    pub proof fn lemma_view_injective(a: Rights, b: Rights)
        requires
            a@ == b@,
        ensures
            a == b,
    {
    }

    /// The masks of the sets that the set operations return.
    pub proof fn lemma_views(a: Rights, b: Rights)
        ensures
            Rights::spec_empty()@ == 0,
            a.spec_union(b)@ == a@ | b@,
            a.spec_intersection(b)@ == a@ & b@,
    {
    }

    /// Decoding a valid mask and encoding the result gives the mask back.
    pub proof fn lemma_bits_round_trip(raw: u64)
        requires
            Rights::valid_bits(raw),
        ensures
            Rights::spec_from_bits(raw) is Some,
            Rights::spec_from_bits(raw).unwrap().spec_to_bits() == raw,
    {
    }

    /// A mask in which a reserved bit is set decodes to nothing.
    pub proof fn lemma_reserved_bits_rejected(raw: u64)
        requires
            !Rights::valid_bits(raw),
        ensures
            Rights::spec_from_bits(raw) is None,
    {
    }

    /// Each set implies its union with another, the intersection of two sets implies
    /// each of them, and a union implies one of its parts exactly when the other
    /// part does.
    pub proof fn lemma_union_intersection_implies(a: Rights, b: Rights)
        ensures
            a.spec_implies(a.spec_union(b)),
            b.spec_implies(a.spec_union(b)),
            a.spec_intersection(b).spec_implies(a),
            a.spec_intersection(b).spec_implies(b),
            a.spec_union(b).spec_implies(a) <==> b.spec_implies(a),
    {
        let x = a.bits;
        let y = b.bits;
        assert(x & (x | y) == x) by (bit_vector);
        assert(y & (x | y) == y) by (bit_vector);
        assert((x & y) & x == x & y) by (bit_vector);
        assert((x & y) & y == x & y) by (bit_vector);
        assert(((x | y) & x == x | y) <==> (y & x == y)) by (bit_vector);
    }

    /// Every set implies itself, and only the empty set implies the empty set.
    pub proof fn lemma_implies_reflexive(a: Rights)
        ensures
            a.spec_implies(a),
            a.spec_implies(Rights::spec_empty()) <==> a.spec_is_empty(),
            Rights::spec_empty().spec_implies(a),
    {
        let x = a.bits;
        assert(x & x == x) by (bit_vector);
        assert((x & 0 == x) <==> x == 0) by (bit_vector);
        assert(0u64 & x == 0) by (bit_vector);
    }

    /// Implication is transitive, and two sets that imply each other are the same set.
    pub proof fn lemma_implies_order(a: Rights, b: Rights, c: Rights)
        ensures
            a.spec_implies(b) && b.spec_implies(c) ==> a.spec_implies(c),
            a.spec_implies(b) && b.spec_implies(a) ==> a == b,
    {
        let x = a.bits;
        let y = b.bits;
        let z = c.bits;
        assert(x & y == x && y & z == y ==> x & z == x) by (bit_vector);
        assert(x & y == x && y & x == y ==> x == y) by (bit_vector);
    }

    /// Union and intersection are commutative, associative and idempotent.
    pub proof fn lemma_lattice(a: Rights, b: Rights, c: Rights)
        ensures
            a.spec_union(b) == b.spec_union(a),
            a.spec_intersection(b) == b.spec_intersection(a),
            a.spec_union(b).spec_union(c) == a.spec_union(b.spec_union(c)),
            a.spec_intersection(b).spec_intersection(c) == a.spec_intersection(
                b.spec_intersection(c),
            ),
            a.spec_union(a) == a,
            a.spec_intersection(a) == a,
    {
        let x = a.bits;
        let y = b.bits;
        let z = c.bits;
        assert(x | y == y | x) by (bit_vector);
        assert(x & y == y & x) by (bit_vector);
        assert((x | y) | z == x | (y | z)) by (bit_vector);
        assert((x & y) & z == x & (y & z)) by (bit_vector);
        assert(x | x == x) by (bit_vector);
        assert(x & x == x) by (bit_vector);
    }
}

impl Default for Rights {
    fn default() -> (r: Rights)
        ensures
            r@ == 0,
    {
        Rights::empty()
    }
}

impl From<Rights> for u64 {
    fn from(rights: Rights) -> (r: u64) {
        rights.to_bits()
    }
}

impl FromSpecImpl<Rights> for u64 {
    open spec fn obeys_from_spec() -> bool {
        true
    }

    open spec fn from_spec(rights: Rights) -> u64 {
        rights@
    }
}

impl TryFrom<u64> for Rights {
    type Error = ();

    fn try_from(raw: u64) -> (r: Result<Rights, ()>)
        ensures
            r is Ok <==> Rights::valid_bits(raw),
            r matches Ok(rights) ==> rights@ == raw,
    {
        match Rights::from_bits(raw) {
            Some(rights) => Ok(rights),
            None => Err(()),
        }
    }
}

impl TryFromSpecImpl<u64> for Rights {
    open spec fn obeys_try_from_spec() -> bool {
        true
    }

    open spec fn try_from_spec(raw: u64) -> Result<Rights, ()> {
        match Rights::spec_from_bits(raw) {
            Some(rights) => Ok(rights),
            None => Err(()),
        }
    }
}

} // verus!
