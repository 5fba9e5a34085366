//! Access permissions that a PipeWire client holds on a global object.

use vstd::prelude::*;

verus! {

/// Bit of the permission to see an object and receive its events.
pub const PERM_R: u32 = 0o400;

/// Bit of the permission to call methods that modify an object.
pub const PERM_W: u32 = 0o200;

/// Bit of the permission to call methods on an object.
pub const PERM_X: u32 = 0o100;

/// Bit of the permission to set metadata on an object.
pub const PERM_M: u32 = 0o010;

/// The bits of all named permissions together.
pub const PERM_ALL: u32 = 0o710;

/// A set of permission bits.
///
/// The set is whatever its 32-bit word holds: bits that belong to no named
/// permission are kept as they are unless a function says that it drops
/// them.
#[derive(Clone, Copy, Debug, PartialEq, Eq, Structural)]
pub struct PermissionFlags(u32);

impl View for PermissionFlags {
    type V = u32;

    /// The word behind the set.
    closed spec fn view(&self) -> u32 {
        self.0
    }
}

impl PermissionFlags {
    /// Whether every bit of `other` is in the set.
    pub open spec fn spec_contains(self, other: PermissionFlags) -> bool {
        self@ & other@ == other@
    }

    /// Whether the set holds no bit that belongs to no named permission.
    pub open spec fn known(self) -> bool {
        self@ & PERM_ALL == self@
    }

    /// The object can be seen and its events received.
    pub fn r() -> (flags: PermissionFlags)
        ensures
            flags@ == PERM_R,
    {
        PermissionFlags(PERM_R)
    }

    /// Methods that modify the object can be called.
    pub fn w() -> (flags: PermissionFlags)
        ensures
            flags@ == PERM_W,
    {
        PermissionFlags(PERM_W)
    }

    /// Methods can be called on the object.
    pub fn x() -> (flags: PermissionFlags)
        ensures
            flags@ == PERM_X,
    {
        PermissionFlags(PERM_X)
    }

    /// Metadata can be set on the object.
    pub fn m() -> (flags: PermissionFlags)
        ensures
            flags@ == PERM_M,
    {
        PermissionFlags(PERM_M)
    }

    /// The set without any bit.
    pub fn empty() -> (flags: PermissionFlags)
        ensures
            flags@ == 0,
    {
        PermissionFlags(0)
    }

    /// The set of all named permissions.
    pub fn all() -> (flags: PermissionFlags)
        ensures
            flags@ == PERM_ALL,
            flags@ == PERM_R | PERM_W | PERM_X | PERM_M,
    {
        assert(0o710u32 == 0o400u32 | 0o200u32 | 0o100u32 | 0o010u32) by (bit_vector);
        PermissionFlags(PERM_ALL)
    }

    /// The word behind the set.
    pub fn bits(&self) -> (bits: u32)
        ensures
            bits == self@,
    {
        self.0
    }

    /// The set behind `bits`, if `bits` holds named permissions only.
    pub fn from_bits(bits: u32) -> (flags: Option<PermissionFlags>)
        ensures
            flags is Some <==> bits & !PERM_ALL == 0,
            flags matches Some(set) ==> set@ == bits,
    {
        let known = bits & PERM_ALL;
        assert((bits & 0o710u32 == bits) <==> (bits & !0o710u32 == 0)) by (bit_vector);
        if known == bits {
            Some(PermissionFlags(known))
        } else {
            None
        }
    }

    /// The named permissions among `bits`; any other bit is dropped.
    pub fn from_bits_truncate(bits: u32) -> (flags: PermissionFlags)
        ensures
            flags@ == bits & PERM_ALL,
            flags.known(),
    {
        assert((bits & 0o710u32) & 0o710u32 == bits & 0o710u32) by (bit_vector);
        PermissionFlags(bits & PERM_ALL)
    }

    /// The set behind `bits`, exactly as they are.
    pub fn from_bits_retain(bits: u32) -> (flags: PermissionFlags)
        ensures
            flags@ == bits,
    {
        PermissionFlags(bits)
    }

    /// Whether the set holds no bit.
    pub fn is_empty(&self) -> (empty: bool)
        ensures
            empty == (self@ == 0),
    {
        self.0 == 0
    }

    /// Whether every bit of `other` is in the set.
    #[verifier::when_used_as_spec(spec_contains)]
    pub fn contains(self, other: PermissionFlags) -> (all_in: bool)
        ensures
            all_in == self.spec_contains(other),
    {
        self.0 & other.0 == other.0
    }

    /// The bits that are in the set or in `other`.
    pub fn union(self, other: PermissionFlags) -> (flags: PermissionFlags)
        ensures
            flags@ == self@ | other@,
            flags.spec_contains(self),
            flags.spec_contains(other),
    {
        let a = self.0;
        let b = other.0;
        assert((a | b) & a == a && (a | b) & b == b) by (bit_vector);
        PermissionFlags(a | b)
    }

    /// The bits that are in the set and in `other`.
    pub fn intersection(self, other: PermissionFlags) -> (flags: PermissionFlags)
        ensures
            flags@ == self@ & other@,
            self.spec_contains(flags),
            other.spec_contains(flags),
    {
        let a = self.0;
        let b = other.0;
        assert(a & (a & b) == a & b && b & (a & b) == a & b) by (bit_vector);
        PermissionFlags(a & b)
    }

    /// The bits that are in the set and not in `other`.
    pub fn difference(self, other: PermissionFlags) -> (flags: PermissionFlags)
        ensures
            flags@ == self@ & !other@,
            self.spec_contains(flags),
            flags@ & other@ == 0,
    {
        let a = self.0;
        let b = other.0;
        assert(a & (a & !b) == a & !b && (a & !b) & b == 0) by (bit_vector);
        PermissionFlags(a & !b)
    }
}

/// Two sets with the same bits are the same set.
pub proof fn law_flags_are_their_bits(a: PermissionFlags, b: PermissionFlags)
    requires
        a@ == b@,
    ensures
        a == b,
{
}

/// Each named permission is one bit of its own, and the set of all named
/// permissions holds these four bits and no other.
pub proof fn law_named_permissions_are_apart()
    ensures
        PERM_R & PERM_W == 0,
        PERM_R & PERM_X == 0,
        PERM_R & PERM_M == 0,
        PERM_W & PERM_X == 0,
        PERM_W & PERM_M == 0,
        PERM_X & PERM_M == 0,
        PERM_ALL == PERM_R | PERM_W | PERM_X | PERM_M,
        forall|bits: u32|
            #![trigger bits & PERM_ALL]
            bits & PERM_ALL == (bits & PERM_R) | (bits & PERM_W) | (bits & PERM_X) | (bits
                & PERM_M),
{
    assert(0o400u32 & 0o200u32 == 0 && 0o400u32 & 0o100u32 == 0 && 0o400u32 & 0o010u32 == 0)
        by (bit_vector);
    assert(0o200u32 & 0o100u32 == 0 && 0o200u32 & 0o010u32 == 0 && 0o100u32 & 0o010u32 == 0)
        by (bit_vector);
    assert(0o710u32 == 0o400u32 | 0o200u32 | 0o100u32 | 0o010u32) by (bit_vector);
    assert forall|bits: u32|
        #![trigger bits & PERM_ALL]
        bits & PERM_ALL == (bits & PERM_R) | (bits & PERM_W) | (bits & PERM_X) | (bits
            & PERM_M) by {
        assert(bits & 0o710u32 == (bits & 0o400u32) | (bits & 0o200u32) | (bits & 0o100u32) | (bits
            & 0o010u32)) by (bit_vector);
    }
}

/// The permissions of one client on one object, as plain values.
pub struct PermissionView {
    /// The id of the object, or of the client, that the permissions are for.
    pub id: u32,
    /// The bits of the permissions.
    pub permissions: u32,
}

/// The permissions that hold for one id.
#[derive(Clone, Copy, Debug)]
pub struct Permission {
    id: u32,
    permission_flags: PermissionFlags,
}

impl View for Permission {
    type V = PermissionView;

    closed spec fn view(&self) -> PermissionView {
        PermissionView { id: self.id, permissions: self.permission_flags@ }
    }
}

impl Permission {
    /// The permissions `flags` for `id`.
    pub fn new(id: u32, flags: PermissionFlags) -> (permission: Self)
        ensures
            permission@ == (PermissionView { id, permissions: flags@ }),
    {
        Permission { id, permission_flags: flags }
    }

    /// The id that the permissions are for.
    pub fn id(&self) -> (id: u32)
        ensures
            id == self@.id,
    {
        self.id
    }

    /// Sets the id that the permissions are for.
    pub fn set_id(&mut self, id: u32)
        ensures
            final(self)@ == (PermissionView { id, permissions: old(self)@.permissions }),
    {
        self.id = id;
    }

    /// The permissions, with every bit that was stored.
    pub fn permission_flags(&self) -> (flags: PermissionFlags)
        ensures
            flags@ == self@.permissions,
    {
        self.permission_flags
    }

    /// Sets the permissions.
    pub fn set_permission_flags(&mut self, flags: PermissionFlags)
        ensures
            final(self)@ == (PermissionView { id: old(self)@.id, permissions: flags@ }),
    {
        self.permission_flags = flags;
    }
}

/// What is stored is what is read: the flags given to a permission, when
/// it is made or set, are the flags that it hands back.
pub proof fn law_permission_keeps_its_flags(permission: Permission, flags: PermissionFlags)
    requires
        permission@.permissions == flags@,
    ensures
        forall|read: PermissionFlags| read@ == permission@.permissions ==> read == flags,
{
    assert forall|read: PermissionFlags| read@ == permission@.permissions implies read
        == flags by {
        law_flags_are_their_bits(read, flags);
    }
}

} // verus!
