//! Roles and the permission bit sets they grant.

use crate::text::{join, join_strs, views_of};
use vstd::prelude::*;

verus! {

/// Bit of the permission to read.
pub const READ_BIT: u32 = 0b0_0001;

/// Bit of the permission to write.
pub const WRITE_BIT: u32 = 0b0_0010;

/// Bit of the permission to create.
pub const CREATE_BIT: u32 = 0b0_0100;

/// Bit of the permission to delete.
pub const DELETE_BIT: u32 = 0b0_1000;

/// Bit of the permission to update.
pub const UPDATE_BIT: u32 = 0b1_0000;

/// Every defined permission bit.
pub const ALL_BITS: u32 = 0b1_1111;

/// Whether every bit of `inner` is set in `outer`.
pub open spec fn bits_within(inner: u32, outer: u32) -> bool {
    outer & inner == inner
}

/// A set of permissions, one bit per permission.
#[derive(Clone, Copy, Debug, PartialEq, Eq, Structural)]
pub struct Permissions {
    bits: u32,
}

impl View for Permissions {
    type V = u32;

    closed spec fn view(&self) -> u32 {
        self.bits
    }
}

impl Permissions {
    /// The set with no permission in it.
    pub fn empty() -> (r: Permissions)
        ensures
            r@ == 0,
    {
        Permissions { bits: 0 }
    }

    /// The set with every permission in it.
    pub fn all() -> (r: Permissions)
        ensures
            r@ == ALL_BITS,
    {
        Permissions { bits: ALL_BITS }
    }

    /// The permission to read.
    pub fn read() -> (r: Permissions)
        ensures
            r@ == READ_BIT,
    {
        Permissions { bits: READ_BIT }
    }

    /// The permission to write.
    pub fn write() -> (r: Permissions)
        ensures
            r@ == WRITE_BIT,
    {
        Permissions { bits: WRITE_BIT }
    }

    /// The permission to create.
    pub fn create() -> (r: Permissions)
        ensures
            r@ == CREATE_BIT,
    {
        Permissions { bits: CREATE_BIT }
    }

    /// The permission to delete.
    pub fn delete() -> (r: Permissions)
        ensures
            r@ == DELETE_BIT,
    {
        Permissions { bits: DELETE_BIT }
    }

    /// The permission to update.
    pub fn update() -> (r: Permissions)
        ensures
            r@ == UPDATE_BIT,
    {
        Permissions { bits: UPDATE_BIT }
    }

    /// The set whose bits are the defined bits among `bits`.
    pub fn from_bits_truncate(bits: u32) -> (r: Permissions)
        ensures
            r@ == bits & ALL_BITS,
    {
        Permissions { bits: bits & ALL_BITS }
    }

    /// The underlying bits.
    pub fn bits(&self) -> (r: u32)
        ensures
            r == self@,
    {
        self.bits
    }

    /// Whether no permission is in the set.
    pub fn is_empty(&self) -> (r: bool)
        ensures
            r == (self@ == 0),
    {
        self.bits == 0
    }

    /// Whether every permission in `other` is also in `self`.
    pub fn contains(&self, other: Permissions) -> (r: bool)
        ensures
            r == bits_within(other@, self@),
    {
        self.bits & other.bits == other.bits
    }

    /// Whether some permission is in both sets.
    pub fn intersects(&self, other: Permissions) -> (r: bool)
        ensures
            r == (self@ & other@ != 0),
    {
        self.bits & other.bits != 0
    }

    /// The names of the permissions in the set, joined by a comma and a
    /// space.
    pub fn to_string(&self) -> (r: String)
        ensures
            r@ == permissions_text(self@),
    {
        let mut names: Vec<&'static str> = Vec::new();
        if self.bits & READ_BIT != 0 {
            names.push("READ");
        }
        if self.bits & WRITE_BIT != 0 {
            names.push("WRITE");
        }
        if self.bits & CREATE_BIT != 0 {
            names.push("CREATE");
        }
        if self.bits & DELETE_BIT != 0 {
            names.push("DELETE");
        }
        if self.bits & UPDATE_BIT != 0 {
            names.push("UPDATE");
        }
        assert(views_of(names@) =~= permission_names(self@));
        join_strs(&names, ", ")
    }

    /// The permissions that are in either set.
    pub fn union(self, other: Permissions) -> (r: Permissions)
        ensures
            r@ == self@ | other@,
    {
        Permissions { bits: self.bits | other.bits }
    }
}

/// The names of the permissions whose bits are set in `bits`, in the order
/// READ, WRITE, CREATE, DELETE, UPDATE.
pub open spec fn permission_names(bits: u32) -> Seq<Seq<char>> {
    (if bits & READ_BIT != 0 {
        seq!["READ"@]
    } else {
        Seq::<Seq<char>>::empty()
    }) + (if bits & WRITE_BIT != 0 {
        seq!["WRITE"@]
    } else {
        Seq::<Seq<char>>::empty()
    }) + (if bits & CREATE_BIT != 0 {
        seq!["CREATE"@]
    } else {
        Seq::<Seq<char>>::empty()
    }) + (if bits & DELETE_BIT != 0 {
        seq!["DELETE"@]
    } else {
        Seq::<Seq<char>>::empty()
    }) + (if bits & UPDATE_BIT != 0 {
        seq!["UPDATE"@]
    } else {
        Seq::<Seq<char>>::empty()
    })
}

/// The names of the permissions whose bits are set in `bits`, joined by a
/// comma and a space.
pub open spec fn permissions_text(bits: u32) -> Seq<char> {
    join(permission_names(bits), ", "@)
}

/// A role that a user can hold.
#[derive(Clone, Copy, Debug, PartialEq, Eq, Hash, Structural)]
pub enum Role {
    Admin,
    Reader,
    Writer,
}

/// The permission bits that a role grants.
pub open spec fn role_bits(role: Role) -> u32 {
    match role {
        Role::Admin => 0b1_1111,
        Role::Reader => 0b0_0001,
        Role::Writer => 0b0_0111,
    }
}

impl Role {
    /// The permissions that this role grants.
    pub fn permissions(&self) -> (r: Permissions)
        ensures
            r@ == role_bits(*self),
    {
        match self {
            Role::Admin => {
                assert(READ_BIT | WRITE_BIT | CREATE_BIT | DELETE_BIT | UPDATE_BIT == 0b1_1111u32)
                    by (bit_vector);
                Permissions::read().union(Permissions::write()).union(Permissions::create()).union(
                    Permissions::delete(),
                ).union(Permissions::update())
            },
            Role::Reader => Permissions::read(),
            Role::Writer => {
                assert(READ_BIT | WRITE_BIT | CREATE_BIT == 0b0_0111u32) by (bit_vector);
                Permissions::read().union(Permissions::write()).union(Permissions::create())
            },
        }
    }
}

/// The union of the permission bits of the roles in `roles`.
pub open spec fn effective_bits(roles: Set<Role>) -> u32 {
    (if roles.contains(Role::Admin) {
        role_bits(Role::Admin)
    } else {
        0u32
    }) | (if roles.contains(Role::Reader) {
        role_bits(Role::Reader)
    } else {
        0u32
    }) | (if roles.contains(Role::Writer) {
        role_bits(Role::Writer)
    } else {
        0u32
    })
}

/// A set of roles.
#[derive(Clone, Copy, Debug, PartialEq, Eq, Structural)]
pub struct RoleSet {
    admin: bool,
    reader: bool,
    writer: bool,
}

impl View for RoleSet {
    type V = Set<Role>;

    closed spec fn view(&self) -> Set<Role> {
        Set::new(
            |role: Role| role == Role::Admin && self.admin || role == Role::Reader && self.reader
                || role == Role::Writer && self.writer,
        )
    }
}

impl RoleSet {
    /// The empty set of roles.
    pub fn new() -> (r: RoleSet)
        ensures
            r@ == Set::<Role>::empty(),
    {
        let r = RoleSet { admin: false, reader: false, writer: false };
        assert(r@ =~= Set::<Role>::empty());
        r
    }

    /// Whether `role` is in the set.
    pub fn contains(&self, role: Role) -> (r: bool)
        ensures
            r == self@.contains(role),
    {
        match role {
            Role::Admin => self.admin,
            Role::Reader => self.reader,
            Role::Writer => self.writer,
        }
    }

    /// Puts `role` into the set; returns whether it was absent before.
    pub fn insert(&mut self, role: Role) -> (r: bool)
        ensures
            final(self)@ == old(self)@.insert(role),
            r == !old(self)@.contains(role),
    {
        let absent = !self.contains(role);
        match role {
            Role::Admin => {
                self.admin = true;
            },
            Role::Reader => {
                self.reader = true;
            },
            Role::Writer => {
                self.writer = true;
            },
        }
        assert(self@ =~= old(self)@.insert(role));
        absent
    }

    /// Takes `role` out of the set; returns whether it was present before.
    pub fn remove(&mut self, role: Role) -> (r: bool)
        ensures
            final(self)@ == old(self)@.remove(role),
            r == old(self)@.contains(role),
    {
        let present = self.contains(role);
        match role {
            Role::Admin => {
                self.admin = false;
            },
            Role::Reader => {
                self.reader = false;
            },
            Role::Writer => {
                self.writer = false;
            },
        }
        assert(self@ =~= old(self)@.remove(role));
        present
    }

    /// Whether the set holds no role.
    pub fn is_empty(&self) -> (r: bool)
        ensures
            r == (self@ == Set::<Role>::empty()),
    {
        let r = !self.admin && !self.reader && !self.writer;
        if r {
            assert(self@ =~= Set::<Role>::empty());
        } else {
            assert(self@.contains(Role::Admin) || self@.contains(Role::Reader) || self@.contains(
                Role::Writer,
            ));
        }
        r
    }

    /// How many roles the set holds.
    pub fn len(&self) -> (r: usize)
        ensures
            r == self@.len(),
            self@.finite(),
    {
        proof {
            lemma_role_set_cases(self@);
        }
        let mut n: usize = 0;
        if self.admin {
            n = n + 1;
        }
        if self.reader {
            n = n + 1;
        }
        if self.writer {
            n = n + 1;
        }
        n
    }

    /// The union of the permissions of the roles in the set.
    pub fn permissions(&self) -> (r: Permissions)
        ensures
            r@ == effective_bits(self@),
    {
        let mut acc = Permissions::empty();
        if self.admin {
            acc = acc.union(Role::Admin.permissions());
        }
        if self.reader {
            acc = acc.union(Role::Reader.permissions());
        }
        if self.writer {
            acc = acc.union(Role::Writer.permissions());
        }
        proof {
            let a: u32 = if self.admin { 0b1_1111u32 } else { 0u32 };
            let b: u32 = if self.reader { 0b0_0001u32 } else { 0u32 };
            let c: u32 = if self.writer { 0b0_0111u32 } else { 0u32 };
            assert(0u32 | a == a) by (bit_vector);
            assert(a | 0u32 == a) by (bit_vector);
            assert((a | b) | 0u32 == a | b) by (bit_vector);
            assert(acc@ == (a | b) | c);
        }
        acc
    }

    /// The roles of the set, in the order Admin, Reader, Writer.
    pub fn to_vec(&self) -> (r: Vec<Role>)
        ensures
            r@ == ordered_roles(self@),
    {
        let mut out: Vec<Role> = Vec::new();
        if self.admin {
            out.push(Role::Admin);
        }
        if self.reader {
            out.push(Role::Reader);
        }
        if self.writer {
            out.push(Role::Writer);
        }
        assert(out@ =~= ordered_roles(self@));
        out
    }
}

/// The roles of `roles` as a sequence, in the order Admin, Reader, Writer.
pub open spec fn ordered_roles(roles: Set<Role>) -> Seq<Role> {
    (if roles.contains(Role::Admin) {
        seq![Role::Admin]
    } else {
        Seq::<Role>::empty()
    }) + (if roles.contains(Role::Reader) {
        seq![Role::Reader]
    } else {
        Seq::<Role>::empty()
    }) + (if roles.contains(Role::Writer) {
        seq![Role::Writer]
    } else {
        Seq::<Role>::empty()
    })
}

/// A set of roles is finite, and its size is the number of the three roles
/// that it holds.
pub proof fn lemma_role_set_cases(roles: Set<Role>)
    ensures
        roles.finite(),
        roles.len() == (if roles.contains(Role::Admin) {
            1nat
        } else {
            0nat
        }) + (if roles.contains(Role::Reader) {
            1nat
        } else {
            0nat
        }) + (if roles.contains(Role::Writer) {
            1nat
        } else {
            0nat
        }),
{
    let e = Set::<Role>::empty();
    let s1 = if roles.contains(Role::Admin) {
        e.insert(Role::Admin)
    } else {
        e
    };
    let s2 = if roles.contains(Role::Reader) {
        s1.insert(Role::Reader)
    } else {
        s1
    };
    let s3 = if roles.contains(Role::Writer) {
        s2.insert(Role::Writer)
    } else {
        s2
    };
    assert forall|role: Role| roles.contains(role) == s3.contains(role) by {
        match role {
            Role::Admin => {},
            Role::Reader => {},
            Role::Writer => {},
        }
    }
    assert(roles =~= s3);
}

/// The union of the permission bits of the roles in `roles`, taken one
/// role after the other.
pub open spec fn union_in_order(roles: Seq<Role>) -> u32
    decreases roles.len(),
{
    if roles.len() == 0 {
        0
    } else {
        union_in_order(roles.drop_last()) | role_bits(roles.last())
    }
}

/// Putting a role into a set adds the role's bits to the effective bits.
pub proof fn lemma_effective_bits_insert(roles: Set<Role>, role: Role)
    ensures
        effective_bits(roles.insert(role)) == effective_bits(roles) | role_bits(role),
{
    let a: u32 = if roles.contains(Role::Admin) {
        0b1_1111u32
    } else {
        0u32
    };
    let b: u32 = if roles.contains(Role::Reader) {
        0b0_0001u32
    } else {
        0u32
    };
    let c: u32 = if roles.contains(Role::Writer) {
        0b0_0111u32
    } else {
        0u32
    };
    assert(effective_bits(roles) == a | b | c);
    match role {
        Role::Admin => {
            assert(effective_bits(roles.insert(role)) == 0b1_1111u32 | b | c);
            assert(0b1_1111u32 | b | c == (a | b | c) | 0b1_1111u32) by (bit_vector)
                requires
                    a == 0u32 || a == 0b1_1111u32,
            ;
        },
        Role::Reader => {
            assert(effective_bits(roles.insert(role)) == a | 0b0_0001u32 | c);
            assert(a | 0b0_0001u32 | c == (a | b | c) | 0b0_0001u32) by (bit_vector)
                requires
                    b == 0u32 || b == 0b0_0001u32,
            ;
        },
        Role::Writer => {
            assert(effective_bits(roles.insert(role)) == a | b | 0b0_0111u32);
            assert(a | b | 0b0_0111u32 == (a | b | c) | 0b0_0111u32) by (bit_vector)
                requires
                    c == 0u32 || c == 0b0_0111u32,
            ;
        },
    }
}

/// The effective permissions do not depend on the order in which the roles
/// are taken: in whatever order a sequence lists the roles of a set, the
/// union of their bits is the same.
pub proof fn lemma_union_any_order(roles: Seq<Role>)
    ensures
        union_in_order(roles) == effective_bits(roles.to_set()),
    decreases roles.len(),
{
    if roles.len() == 0 {
        assert(roles.to_set() =~= Set::<Role>::empty());
        assert(0u32 | 0u32 | 0u32 == 0u32) by (bit_vector);
    } else {
        let init = roles.drop_last();
        lemma_union_any_order(init);
        assert forall|r: Role| roles.to_set().contains(r) == init.to_set().insert(
            roles.last(),
        ).contains(r) by {
            if roles.contains(r) {
                let k = choose|k: int| 0 <= k < roles.len() && roles[k] == r;
                if k < roles.len() - 1 {
                    assert(init[k] == r);
                }
            }
            if init.contains(r) {
                let k = choose|k: int| 0 <= k < init.len() && init[k] == r;
                assert(roles[k] == r);
            }
            if r == roles.last() {
                assert(roles[roles.len() - 1] == r);
            }
        }
        assert(roles.to_set() =~= init.to_set().insert(roles.last()));
        lemma_effective_bits_insert(init.to_set(), roles.last());
    }
}

/// Admin grants strictly more than Writer and Writer strictly more than
/// Reader; the permissions to delete and to update come with Admin alone.
pub proof fn lemma_role_hierarchy()
    ensures
        bits_within(role_bits(Role::Reader), role_bits(Role::Writer)),
        role_bits(Role::Reader) != role_bits(Role::Writer),
        bits_within(role_bits(Role::Writer), role_bits(Role::Admin)),
        role_bits(Role::Writer) != role_bits(Role::Admin),
        bits_within(DELETE_BIT | UPDATE_BIT, role_bits(Role::Admin)),
        forall|role: Role|
            role != Role::Admin ==> #[trigger] role_bits(role) & (DELETE_BIT | UPDATE_BIT) == 0,
{
    assert(0b0_0111u32 & 0b0_0001u32 == 0b0_0001u32) by (bit_vector);
    assert(0b1_1111u32 & 0b0_0111u32 == 0b0_0111u32) by (bit_vector);
    assert(0b1_1111u32 & (0b0_1000u32 | 0b1_0000u32) == (0b0_1000u32 | 0b1_0000u32))
        by (bit_vector);
    assert(0b0_0001u32 & (0b0_1000u32 | 0b1_0000u32) == 0) by (bit_vector);
    assert(0b0_0111u32 & (0b0_1000u32 | 0b1_0000u32) == 0) by (bit_vector);
    assert forall|role: Role| role != Role::Admin implies #[trigger] role_bits(role) & (DELETE_BIT
        | UPDATE_BIT) == 0 by {
        match role {
            Role::Admin => {},
            Role::Reader => {},
            Role::Writer => {},
        }
    }
}

/// Whether `bit` is the bit of one of the five permissions.
pub open spec fn is_permission_bit(bit: u32) -> bool {
    bit == READ_BIT || bit == WRITE_BIT || bit == CREATE_BIT || bit == DELETE_BIT || bit
        == UPDATE_BIT
}

/// Whether one of the roles in `roles` grants the permission `bit`.
pub open spec fn granted_by_some_role(roles: Set<Role>, bit: u32) -> bool {
    exists|role: Role| roles.contains(role) && bits_within(bit, role_bits(role))
}

/// A set of permissions is granted by a set of roles exactly if it holds
/// defined permissions only and each of them is granted by one of the
/// roles.
pub proof fn lemma_granted_bit_by_bit(roles: Set<Role>, wanted: u32)
    ensures
        bits_within(wanted, effective_bits(roles)) <==> bits_within(wanted, ALL_BITS) && (forall|
            bit: u32,
        |
            is_permission_bit(bit) && bits_within(bit, wanted) ==> #[trigger] granted_by_some_role(
                roles,
                bit,
            )),
{
    let a: u32 = if roles.contains(Role::Admin) {
        0b1_1111u32
    } else {
        0u32
    };
    let b: u32 = if roles.contains(Role::Reader) {
        0b0_0001u32
    } else {
        0u32
    };
    let c: u32 = if roles.contains(Role::Writer) {
        0b0_0111u32
    } else {
        0u32
    };
    let all = effective_bits(roles);
    assert(all == a | b | c);
    assert(all & 0b1_1111u32 == all) by (bit_vector)
        requires
            all == a | b | c,
            a == 0u32 || a == 0b1_1111u32,
            b == 0u32 || b == 0b0_0001u32,
            c == 0u32 || c == 0b0_0111u32,
    ;
    if bits_within(wanted, all) {
        assert(0b1_1111u32 & wanted == wanted) by (bit_vector)
            requires
                all & wanted == wanted,
                all & 0b1_1111u32 == all,
        ;
        assert forall|bit: u32|
            is_permission_bit(bit) && bits_within(bit, wanted) implies #[trigger] granted_by_some_role(
            roles,
            bit,
        ) by {
            assert(a & bit == bit || b & bit == bit || c & bit == bit) by (bit_vector)
                requires
                    bit == 1u32 || bit == 2u32 || bit == 4u32 || bit == 8u32 || bit == 16u32,
                    wanted & bit == bit,
                    (a | b | c) & wanted == wanted,
            ;
            if a & bit == bit {
                assert(a != 0) by (bit_vector)
                    requires
                        a & bit == bit,
                        bit != 0,
                ;
                assert(roles.contains(Role::Admin) && bits_within(bit, role_bits(Role::Admin)));
            } else if b & bit == bit {
                assert(b != 0) by (bit_vector)
                    requires
                        b & bit == bit,
                        bit != 0,
                ;
                assert(roles.contains(Role::Reader) && bits_within(bit, role_bits(Role::Reader)));
            } else {
                assert(c != 0) by (bit_vector)
                    requires
                        c & bit == bit,
                        bit != 0,
                ;
                assert(roles.contains(Role::Writer) && bits_within(bit, role_bits(Role::Writer)));
            }
        }
    } else if bits_within(wanted, ALL_BITS) {
        let bit: u32 = if wanted & 1 == 1 && all & 1 == 0 {
            1
        } else if wanted & 2 == 2 && all & 2 == 0 {
            2
        } else if wanted & 4 == 4 && all & 4 == 0 {
            4
        } else if wanted & 8 == 8 && all & 8 == 0 {
            8
        } else {
            16
        };
        assert(wanted & bit == bit && all & bit == 0) by (bit_vector)
            requires
                all & wanted != wanted,
                0b1_1111u32 & wanted == wanted,
                bit == (if wanted & 1 == 1 && all & 1 == 0 {
                    1u32
                } else if wanted & 2 == 2 && all & 2 == 0 {
                    2u32
                } else if wanted & 4 == 4 && all & 4 == 0 {
                    4u32
                } else if wanted & 8 == 8 && all & 8 == 0 {
                    8u32
                } else {
                    16u32
                }),
        ;
        assert(is_permission_bit(bit) && bits_within(bit, wanted));
        assert forall|role: Role| roles.contains(role) implies !bits_within(
            bit,
            role_bits(role),
        ) by {
            let r = role_bits(role);
            assert(all & r == r) by {
                match role {
                    Role::Admin => {
                        assert((0b1_1111u32 | b | c) & 0b1_1111u32 == 0b1_1111u32) by (bit_vector);
                    },
                    Role::Reader => {
                        assert((a | 0b0_0001u32 | c) & 0b0_0001u32 == 0b0_0001u32) by (bit_vector);
                    },
                    Role::Writer => {
                        assert((a | b | 0b0_0111u32) & 0b0_0111u32 == 0b0_0111u32) by (bit_vector);
                    },
                }
            }
            assert(r & bit != bit) by (bit_vector)
                requires
                    all & r == r,
                    all & bit == 0,
                    bit != 0,
            ;
        }
        assert(!granted_by_some_role(roles, bit));
    }
}

/// Whether another role of `roles` grants all that `role` grants.
pub open spec fn covered_by_another(roles: Set<Role>, role: Role) -> bool {
    exists|other: Role|
        roles.contains(other) && other != role && bits_within(role_bits(role), role_bits(other))
}

/// Giving a role and taking it away again restores the effective
/// permissions, if the role was not held before, or if another role that is
/// held grants all that it grants.
pub proof fn lemma_add_then_remove(roles: Set<Role>, role: Role)
    requires
        !roles.contains(role) || covered_by_another(roles, role),
    ensures
        effective_bits(roles.insert(role).remove(role)) == effective_bits(roles),
{
    if !roles.contains(role) {
        assert(roles.insert(role).remove(role) =~= roles);
    } else {
        let other = choose|other: Role|
            roles.contains(other) && other != role && bits_within(
                role_bits(role),
                role_bits(other),
            );
        let rest = roles.remove(role);
        assert(roles.insert(role).remove(role) =~= rest);
        assert(rest.insert(role) =~= roles);
        assert(rest.contains(other));
        assert(rest.insert(other) =~= rest);
        lemma_effective_bits_insert(rest, role);
        lemma_effective_bits_insert(rest, other);
        let e = effective_bits(rest);
        let x = role_bits(role);
        let y = role_bits(other);
        assert(e | x == e) by (bit_vector)
            requires
                e == e | y,
                y & x == x,
        ;
    }
}

} // verus!
