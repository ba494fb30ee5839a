//! What a member may do in a journal: a set of flags kept in the bits of an `i32`.

use vstd::prelude::*;

verus! {

/// A set of journal permissions.
#[derive(Clone, Copy, PartialEq, Eq, Structural, Debug, Hash)]
pub struct Permissions {
    pub bits: i32,
}

/// The bits that name a permission.
pub open spec fn all_bits() -> i32 {
    0xff
}

/// `a` holds every flag of `b`.
pub open spec fn bits_contain(a: i32, b: i32) -> bool {
    a & b == b
}

/// A bit pattern that sets an unknown flag.
#[derive(Debug, Clone, PartialEq, Eq)]
pub struct PermissionDecodeError(pub i32);

impl Permissions {
    pub open spec fn spec_contains(&self, other: Permissions) -> bool {
        bits_contain(self.bits, other.bits)
    }

    /// May read the journal.
    pub fn read() -> (p: Permissions)
        ensures
            p.bits == 1,
    {
        Permissions { bits: 1 }
    }

    /// May add accounts.
    pub fn add_account() -> (p: Permissions)
        ensures
            p.bits == 2,
    {
        Permissions { bits: 2 }
    }

    /// May create activities.
    pub fn create_activity() -> (p: Permissions)
        ensures
            p.bits == 4,
    {
        Permissions { bits: 4 }
    }

    /// May create funds.
    pub fn create_fund() -> (p: Permissions)
        ensures
            p.bits == 8,
    {
        Permissions { bits: 8 }
    }

    /// May upload files.
    pub fn upload_file() -> (p: Permissions)
        ensures
            p.bits == 16,
    {
        Permissions { bits: 16 }
    }

    /// May append transactions.
    pub fn append_transaction() -> (p: Permissions)
        ensures
            p.bits == 32,
    {
        Permissions { bits: 32 }
    }

    /// May invite members.
    pub fn invite() -> (p: Permissions)
        ensures
            p.bits == 64,
    {
        Permissions { bits: 64 }
    }

    /// Owns the journal.
    pub fn owner() -> (p: Permissions)
        ensures
            p.bits == 128,
    {
        Permissions { bits: 128 }
    }

    /// No permission.
    pub fn empty() -> (p: Permissions)
        ensures
            p.bits == 0,
    {
        Permissions { bits: 0 }
    }

    /// Every permission.
    pub fn all() -> (p: Permissions)
        ensures
            p.bits == all_bits(),
    {
        Permissions { bits: 0xff }
    }

    /// The raw bits.
    pub fn bits(&self) -> (b: i32)
        ensures
            b == self.bits,
    {
        self.bits
    }

    /// The permissions with these bits, if every set bit names a permission.
    pub fn from_bits(bits: i32) -> (r: Option<Permissions>)
        ensures
            r is Some <==> bits & !all_bits() == 0,
            r matches Some(p) ==> p.bits == bits,
    {
        if bits & !0xffi32 == 0 {
            Some(Permissions { bits })
        } else {
            None
        }
    }

    /// Whether every permission of `other` is in `self`.
    pub fn contains(&self, other: Permissions) -> (r: bool)
        ensures
            r == self.spec_contains(other),
    {
        self.bits & other.bits == other.bits
    }

    /// The permissions of both.
    pub fn union(self, other: Permissions) -> (p: Permissions)
        ensures
            p.bits == self.bits | other.bits,
    {
        Permissions { bits: self.bits | other.bits }
    }

    /// Adds the permissions of `other`.
    pub fn insert(&mut self, other: Permissions)
        ensures
            final(self).bits == old(self).bits | other.bits,
    {
        self.bits = self.bits | other.bits;
    }

    /// Whether no permission is set.
    pub fn is_empty(&self) -> (r: bool)
        ensures
            r == (self.bits == 0),
    {
        self.bits == 0
    }
}

impl Default for Permissions {
    fn default() -> (p: Permissions)
        ensures
            p.bits == 0,
    {
        Permissions::empty()
    }
}

/// A union holds each of its parts.
pub proof fn lemma_union_contains(a: Permissions, b: Permissions)
    ensures
        (Permissions { bits: a.bits | b.bits }).spec_contains(a),
        (Permissions { bits: a.bits | b.bits }).spec_contains(b),
{
    let x = a.bits;
    let y = b.bits;
    assert((x | y) & x == x && (x | y) & y == y) by (bit_vector);
}

/// Holding permissions is transitive.
pub proof fn lemma_contains_transitive(a: Permissions, b: Permissions, c: Permissions)
    requires
        a.spec_contains(b),
        b.spec_contains(c),
    ensures
        a.spec_contains(c),
{
    let x = a.bits;
    let y = b.bits;
    let z = c.bits;
    assert(x & z == z) by (bit_vector)
        requires
            x & y == y,
            y & z == z,
    ;
}

/// Every set of permissions holds the empty set and itself.
pub proof fn lemma_contains_empty_and_self(a: Permissions)
    ensures
        a.spec_contains((Permissions { bits: 0 })),
        a.spec_contains(a),
{
    let x = a.bits;
    assert(x & 0 == 0 && x & x == x) by (bit_vector);
}

/// The owner permission set holds every permission.
pub proof fn lemma_all_contains(p: Permissions)
    requires
        p.bits & !all_bits() == 0,
    ensures
        (Permissions { bits: all_bits() }).spec_contains(p),
{
    let x = p.bits;
    assert(0xffi32 & x == x) by (bit_vector)
        requires
            x & !0xffi32 == 0,
    ;
}

} // verus!
