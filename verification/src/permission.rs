//! The capability vector of a principal and the single authorization primitive.
//!
//! A vector is a fixed-length ordered sequence of flags. Position 0 is the
//! administrator flag, which grants every capability; the other positions are
//! independent of each other.

use vstd::prelude::*;

verus! {

/// Number of flags in a capability vector.
pub const SCHEMA_LEN: usize = 6;

/// Smallest integer that no longer fits the schema: two to the power `SCHEMA_LEN`.
pub const MASK_LIMIT: u8 = 64;

/// One capability, named by what it allows.
#[derive(Clone, Copy, Debug, PartialEq, Eq, Structural)]
pub enum Capability {
    /// Administer everything.
    Admin,
    /// Manage lower-privileged principals and list all principals but administrators.
    Manage,
    /// Edit and delete resources owned by others.
    Moderate,
    /// List all resources.
    List,
    /// Create, edit, delete and list own resources.
    Own,
    /// Create randomly named resources.
    Random,
}

impl Capability {
    /// Position of this capability's flag in a vector.
    pub open spec fn bit(self) -> int {
        match self {
            Capability::Admin => 0,
            Capability::Manage => 1,
            Capability::Moderate => 2,
            Capability::List => 3,
            Capability::Own => 4,
            Capability::Random => 5,
        }
    }

    /// The capability whose flag stands at position `i`, if there is one.
    pub open spec fn at(i: int) -> Option<Capability> {
        if i == 0 {
            Some(Capability::Admin)
        } else if i == 1 {
            Some(Capability::Manage)
        } else if i == 2 {
            Some(Capability::Moderate)
        } else if i == 3 {
            Some(Capability::List)
        } else if i == 4 {
            Some(Capability::Own)
        } else if i == 5 {
            Some(Capability::Random)
        } else {
            None
        }
    }

    /// Position of this capability's flag in a vector.
    pub fn position(self) -> (i: usize)
        ensures
            i == self.bit(),
            i < SCHEMA_LEN,
    {
        match self {
            Capability::Admin => 0,
            Capability::Manage => 1,
            Capability::Moderate => 2,
            Capability::List => 3,
            Capability::Own => 4,
            Capability::Random => 5,
        }
    }

    /// The capability whose flag stands at position `i`; `None` from `SCHEMA_LEN` on.
    pub fn from_position(i: usize) -> (c: Option<Capability>)
        ensures
            c == Capability::at(i as int),
            c is Some <==> i < SCHEMA_LEN,
    {
        if i == 0 {
            Some(Capability::Admin)
        } else if i == 1 {
            Some(Capability::Manage)
        } else if i == 2 {
            Some(Capability::Moderate)
        } else if i == 3 {
            Some(Capability::List)
        } else if i == 4 {
            Some(Capability::Own)
        } else if i == 5 {
            Some(Capability::Random)
        } else {
            None
        }
    }
}

/// Why a raw value is not a capability vector.
#[derive(Clone, Copy, Debug, PartialEq, Eq, Structural)]
pub enum PermissionError {
    /// The raw value has another width than the schema.
    SchemaMismatch,
}

/// The capability vector of a principal.
#[derive(Clone, Copy, Debug, PartialEq, Eq, Structural)]
pub struct Permission {
    pub admin: bool,
    pub manage: bool,
    pub moderate: bool,
    pub list: bool,
    pub own: bool,
    pub random: bool,
}

impl View for Permission {
    type V = Seq<bool>;

    /// The flags in schema order.
    open spec fn view(&self) -> Seq<bool> {
        seq![self.admin, self.manage, self.moderate, self.list, self.own, self.random]
    }
}

/// The flag that a stored number stands for: set exactly when the number is 1.
pub open spec fn flag_of(raw: u8) -> bool {
    raw == 1
}

/// The number that a flag is stored as.
pub open spec fn number_of(flag: bool) -> u8 {
    if flag {
        1u8
    } else {
        0u8
    }
}

/// Whether bit `i` of `raw` is set, counting from the least significant bit.
pub open spec fn mask_bit(raw: u8, i: int) -> bool {
    if i == 0 {
        raw % 2 == 1
    } else if i == 1 {
        (raw / 2) % 2 == 1
    } else if i == 2 {
        (raw / 4) % 2 == 1
    } else if i == 3 {
        (raw / 8) % 2 == 1
    } else if i == 4 {
        (raw / 16) % 2 == 1
    } else if i == 5 {
        (raw / 32) % 2 == 1
    } else if i == 6 {
        (raw / 64) % 2 == 1
    } else if i == 7 {
        (raw / 128) % 2 == 1
    } else {
        false
    }
}

impl Permission {
    /// The vector with the given flags, in schema order.
    pub open spec fn of_flags(flags: Seq<bool>) -> Permission
        recommends
            flags.len() == SCHEMA_LEN,
    {
        Permission {
            admin: flags[0],
            manage: flags[1],
            moderate: flags[2],
            list: flags[3],
            own: flags[4],
            random: flags[5],
        }
    }

    /// What `has` answers: the administrator flag or the capability's own flag.
    pub open spec fn grants(self, c: Capability) -> bool {
        self@[0] || self@[c.bit()]
    }

    /// The stored form of the vector: one number per flag, 1 for a set flag and
    /// 0 for a clear one.
    pub open spec fn encoded(self) -> Seq<u8> {
        Seq::new(SCHEMA_LEN as nat, |i: int| number_of(self@[i]))
    }

    /// What `decode` returns on a sequence of stored numbers.
    pub open spec fn decoded(raw: Seq<u8>) -> Result<Permission, PermissionError> {
        if raw.len() == SCHEMA_LEN {
            Ok(Permission::of_flags(Seq::new(SCHEMA_LEN as nat, |i: int| flag_of(raw[i]))))
        } else {
            Err(PermissionError::SchemaMismatch)
        }
    }

    /// The vector as one integer: flag `i` is bit `i`.
    pub open spec fn mask(self) -> int {
        (if self.admin { 1int } else { 0 })
            + (if self.manage { 2int } else { 0 })
            + (if self.moderate { 4int } else { 0 })
            + (if self.list { 8int } else { 0 })
            + (if self.own { 16int } else { 0 })
            + (if self.random { 32int } else { 0 })
    }

    /// What `from_u8` returns on an integer.
    pub open spec fn unmasked(raw: u8) -> Result<Permission, PermissionError> {
        if raw < MASK_LIMIT {
            Ok(Permission::of_flags(Seq::new(SCHEMA_LEN as nat, |i: int| mask_bit(raw, i))))
        } else {
            Err(PermissionError::SchemaMismatch)
        }
    }

    /// The vector with no capability.
    pub open spec fn empty() -> Permission {
        Permission {
            admin: false,
            manage: false,
            moderate: false,
            list: false,
            own: false,
            random: false,
        }
    }

    /// The vector with the administrator flag and no other.
    pub open spec fn full() -> Permission {
        Permission {
            admin: true,
            manage: false,
            moderate: false,
            list: false,
            own: false,
            random: false,
        }
    }

    /// The vector with no capability.
    pub fn none() -> (p: Permission)
        ensures
            p == Permission::empty(),
            forall|i: int| 0 <= i < SCHEMA_LEN ==> !p@[i],
            forall|c: Capability| !p.grants(c),
    {
        Permission {
            admin: false,
            manage: false,
            moderate: false,
            list: false,
            own: false,
            random: false,
        }
    }

    /// The vector of a full administrator: the administrator flag and no other.
    pub fn administrator() -> (p: Permission)
        ensures
            p == Permission::full(),
            forall|i: int| 0 <= i < SCHEMA_LEN ==> p@[i] == (i == 0),
            forall|c: Capability| p.grants(c),
    {
        Permission {
            admin: true,
            manage: false,
            moderate: false,
            list: false,
            own: false,
            random: false,
        }
    }

    /// Whether the vector grants `c`: the administrator flag is set, or the flag
    /// of `c` itself is.
    pub fn has(&self, c: Capability) -> (granted: bool)
        ensures
            granted == self.grants(c),
            self@[0] ==> granted,
            !self@[0] ==> granted == self@[c.bit()],
    {
        if self.admin {
            return true;
        }
        match c {
            Capability::Admin => false,
            Capability::Manage => self.manage,
            Capability::Moderate => self.moderate,
            Capability::List => self.list,
            Capability::Own => self.own,
            Capability::Random => self.random,
        }
    }

    /// Can do anything.
    pub fn can_admin(&self) -> (granted: bool)
        ensures
            granted == self.grants(Capability::Admin),
            granted == self@[0],
    {
        self.has(Capability::Admin)
    }

    /// Can add, remove and edit principals below itself and list all principals
    /// but administrators.
    pub fn can_manage(&self) -> (granted: bool)
        ensures
            granted == self.grants(Capability::Manage),
    {
        self.has(Capability::Manage)
    }

    /// Can edit and delete all resources.
    pub fn can_mod(&self) -> (granted: bool)
        ensures
            granted == self.grants(Capability::Moderate),
    {
        self.has(Capability::Moderate)
    }

    /// Can list all resources.
    pub fn can_list(&self) -> (granted: bool)
        ensures
            granted == self.grants(Capability::List),
    {
        self.has(Capability::List)
    }

    /// Can create, edit, delete and list own resources.
    pub fn can_own(&self) -> (granted: bool)
        ensures
            granted == self.grants(Capability::Own),
    {
        self.has(Capability::Own)
    }

    /// Can create randomly named resources.
    pub fn can_random(&self) -> (granted: bool)
        ensures
            granted == self.grants(Capability::Random),
    {
        self.has(Capability::Random)
    }

    /// The vector stored as six numbers. A flag is set exactly where the number
    /// is 1.
    pub fn from_arr(nums: [u8; 6]) -> (p: Permission)
        ensures
            Permission::decoded(nums@) == Ok::<Permission, PermissionError>(p),
            forall|i: int| 0 <= i < SCHEMA_LEN ==> p@[i] == flag_of(#[trigger] nums@[i]),
    {
        Permission {
            admin: nums[0] == 1,
            manage: nums[1] == 1,
            moderate: nums[2] == 1,
            list: nums[3] == 1,
            own: nums[4] == 1,
            random: nums[5] == 1,
        }
    }

    /// Reads a vector from its stored form. A sequence of any other length than
    /// the schema's is refused; nothing is cut off or filled up.
    pub fn decode(raw: &[u8]) -> (r: Result<Permission, PermissionError>)
        ensures
            r == Permission::decoded(raw@),
            r is Ok <==> raw@.len() == SCHEMA_LEN,
            r matches Ok(p) ==> forall|i: int|
                0 <= i < SCHEMA_LEN ==> p@[i] == flag_of(#[trigger] raw@[i]),
    {
        if raw.len() != SCHEMA_LEN {
            return Err(PermissionError::SchemaMismatch);
        }
        Ok(
            Permission {
                admin: raw[0] == 1,
                manage: raw[1] == 1,
                moderate: raw[2] == 1,
                list: raw[3] == 1,
                own: raw[4] == 1,
                random: raw[5] == 1,
            },
        )
    }

    /// The stored form of the vector.
    pub fn encode(&self) -> (nums: [u8; 6])
        ensures
            nums@ == self.encoded(),
            Permission::decoded(nums@) == Ok::<Permission, PermissionError>(*self),
    {
        let nums: [u8; 6] = [
            Self::number(self.admin),
            Self::number(self.manage),
            Self::number(self.moderate),
            Self::number(self.list),
            Self::number(self.own),
            Self::number(self.random),
        ];
        assert(nums@ =~= self.encoded());
        nums
    }

    /// Reads a vector from an integer whose bit `i` is flag `i`. An integer with
    /// a bit beyond the schema is refused.
    pub fn from_u8(raw: u8) -> (r: Result<Permission, PermissionError>)
        ensures
            r == Permission::unmasked(raw),
            r is Ok <==> raw < MASK_LIMIT,
            r matches Ok(p) ==> p.mask() == raw,
    {
        if raw >= MASK_LIMIT {
            return Err(PermissionError::SchemaMismatch);
        }
        Ok(
            Permission {
                admin: raw % 2 == 1,
                manage: (raw / 2) % 2 == 1,
                moderate: (raw / 4) % 2 == 1,
                list: (raw / 8) % 2 == 1,
                own: (raw / 16) % 2 == 1,
                random: (raw / 32) % 2 == 1,
            },
        )
    }

    /// The vector as one integer: flag `i` is bit `i`.
    pub fn to_u8(&self) -> (raw: u8)
        ensures
            raw == self.mask(),
            raw < MASK_LIMIT,
            Permission::unmasked(raw) == Ok::<Permission, PermissionError>(*self),
    {
        let mut raw: u8 = 0;
        if self.admin {
            raw = raw + 1;
        }
        if self.manage {
            raw = raw + 2;
        }
        if self.moderate {
            raw = raw + 4;
        }
        if self.list {
            raw = raw + 8;
        }
        if self.own {
            raw = raw + 16;
        }
        if self.random {
            raw = raw + 32;
        }
        raw
    }

    fn number(flag: bool) -> (n: u8)
        ensures
            n == number_of(flag),
    {
        if flag {
            1
        } else {
            0
        }
    }
}

impl Default for Permission {
    /// The vector with no capability: what a principal has whose permissions
    /// cannot be determined.
    fn default() -> (p: Permission)
        ensures
            p == Permission::empty(),
    {
        Permission::none()
    }
}

/// An administrator is granted every capability, whatever the other flags are.
pub proof fn law_administrator_is_granted_everything(v: Permission, c: Capability)
    requires
        v@[0],
    ensures
        v.grants(c),
{
}

/// Without the administrator flag a capability is granted exactly when its own
/// flag is set: no flag but the first implies another.
pub proof fn law_other_flags_are_independent(v: Permission, c: Capability)
    requires
        !v@[0],
    ensures
        v.grants(c) == v@[c.bit()],
{
}

/// Decoding the stored form of a vector gives the vector back.
pub proof fn law_decode_inverts_encode(v: Permission)
    ensures
        v.encoded().len() == SCHEMA_LEN,
        Permission::decoded(v.encoded()) == Ok::<Permission, PermissionError>(v),
{
}

/// A stored form of any other length than the schema's is refused.
pub proof fn law_decode_refuses_other_lengths(raw: Seq<u8>)
    requires
        raw.len() != SCHEMA_LEN,
    ensures
        Permission::decoded(raw) == Err::<Permission, PermissionError>(
            PermissionError::SchemaMismatch,
        ),
{
}

/// Reading the integer form of a vector gives the vector back.
pub proof fn law_from_u8_inverts_to_u8(v: Permission)
    ensures
        0 <= v.mask() < MASK_LIMIT,
        Permission::unmasked(v.mask() as u8) == Ok::<Permission, PermissionError>(v),
{
}

/// An integer is read as a vector exactly when it has no bit beyond the schema,
/// and the vector read from it has that integer form.
pub proof fn law_from_u8_refuses_wider_integers(raw: u8)
    ensures
        raw >= MASK_LIMIT ==> Permission::unmasked(raw) == Err::<Permission, PermissionError>(
            PermissionError::SchemaMismatch,
        ),
        raw < MASK_LIMIT ==> Permission::unmasked(raw).unwrap().mask() == raw,
{
}

/// Two vectors with the same flags are the same vector.
pub proof fn law_view_is_injective(a: Permission, b: Permission)
    requires
        a@ == b@,
    ensures
        a == b,
{
    assert(a.admin == a@[0] && b.admin == b@[0]);
    assert(a.manage == a@[1] && b.manage == b@[1]);
    assert(a.moderate == a@[2] && b.moderate == b@[2]);
    assert(a.list == a@[3] && b.list == b@[3]);
    assert(a.own == a@[4] && b.own == b@[4]);
    assert(a.random == a@[5] && b.random == b@[5]);
}

} // verus!
