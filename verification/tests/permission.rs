use redirector::index;
use redirector::permission::{Capability, Permission, PermissionError, MASK_LIMIT, SCHEMA_LEN};

const ALL: [Capability; 6] = [
    Capability::Admin,
    Capability::Manage,
    Capability::Moderate,
    Capability::List,
    Capability::Own,
    Capability::Random,
];

fn every_vector() -> Vec<Permission> {
    let mut all = Vec::new();
    for mask in 0u8..64 {
        all.push(Permission::from_u8(mask).unwrap());
    }
    all
}

fn flag(v: &Permission, i: usize) -> bool {
    [v.admin, v.manage, v.moderate, v.list, v.own, v.random][i]
}

#[test]
fn landing_text() {
    assert_eq!(index(), "Hello, world!");
}

#[test]
fn administrator_has_every_capability() {
    for v in every_vector() {
        if v.admin {
            for c in ALL {
                assert!(v.has(c));
            }
        }
    }
}

#[test]
fn without_administrator_each_flag_stands_alone() {
    for v in every_vector() {
        if !v.admin {
            for c in ALL {
                assert_eq!(v.has(c), flag(&v, c.position()));
            }
        }
    }
}

#[test]
fn only_own_resources() {
    let v = Permission::from_arr([0, 0, 0, 0, 1, 0]);
    assert!(!v.has(Capability::Admin));
    assert!(v.has(Capability::Own));
    assert!(!v.can_admin());
    assert!(v.can_own());
    assert!(!v.can_manage());
    assert!(!v.can_mod());
    assert!(!v.can_list());
    assert!(!v.can_random());
}

#[test]
fn random_names_have_their_own_flag() {
    let v = Permission::from_arr([0, 0, 0, 0, 0, 1]);
    assert!(v.can_random());
    assert!(!v.can_own());
    let w = Permission::from_arr([0, 0, 0, 0, 1, 0]);
    assert!(!w.can_random());
}

#[test]
fn named_checks_follow_their_flags() {
    assert!(Permission::from_arr([0, 1, 0, 0, 0, 0]).can_manage());
    assert!(Permission::from_arr([0, 0, 1, 0, 0, 0]).can_mod());
    assert!(Permission::from_arr([0, 0, 0, 1, 0, 0]).can_list());
    let admin = Permission::from_arr([1, 0, 0, 0, 0, 0]);
    assert!(admin.can_admin());
    assert!(admin.can_manage());
    assert!(admin.can_mod());
    assert!(admin.can_list());
    assert!(admin.can_own());
    assert!(admin.can_random());
}

#[test]
fn decode_inverts_encode() {
    for v in every_vector() {
        assert_eq!(Permission::decode(&v.encode()), Ok(v));
        assert_eq!(Permission::from_arr(v.encode()), v);
    }
}

#[test]
fn from_u8_inverts_to_u8() {
    for mask in 0u8..64 {
        let v = Permission::from_u8(mask).unwrap();
        assert_eq!(v.to_u8(), mask);
    }
    for v in every_vector() {
        assert_eq!(Permission::from_u8(v.to_u8()), Ok(v));
    }
}

#[test]
fn encode_writes_ones_and_zeros() {
    let v = Permission {
        admin: true,
        manage: false,
        moderate: true,
        list: false,
        own: false,
        random: true,
    };
    assert_eq!(v.encode(), [1, 0, 1, 0, 0, 1]);
    assert_eq!(v.to_u8(), 1 + 4 + 32);
    assert_eq!(Permission::administrator().encode(), [1, 0, 0, 0, 0, 0]);
    assert_eq!(Permission::none().encode(), [0, 0, 0, 0, 0, 0]);
}

#[test]
fn decode_refuses_other_lengths() {
    assert_eq!(Permission::decode(&[]), Err(PermissionError::SchemaMismatch));
    assert_eq!(
        Permission::decode(&[1, 0, 0, 0, 0]),
        Err(PermissionError::SchemaMismatch)
    );
    assert_eq!(
        Permission::decode(&[1, 0, 0, 0, 0, 0, 0]),
        Err(PermissionError::SchemaMismatch)
    );
    assert_eq!(
        Permission::decode(&[1, 0, 0, 0, 0, 0]),
        Ok(Permission::administrator())
    );
}

#[test]
fn decode_sets_a_flag_only_for_one() {
    let v = Permission::decode(&[2, 1, 255, 0, 1, 7]).unwrap();
    assert_eq!(
        v,
        Permission {
            admin: false,
            manage: true,
            moderate: false,
            list: false,
            own: true,
            random: false,
        }
    );
}

#[test]
fn from_u8_refuses_wider_integers() {
    assert_eq!(MASK_LIMIT, 64);
    assert_eq!(SCHEMA_LEN, 6);
    assert!(Permission::from_u8(63).is_ok());
    for mask in 64u8..=255 {
        assert_eq!(Permission::from_u8(mask), Err(PermissionError::SchemaMismatch));
    }
}

#[test]
fn from_u8_reads_bit_zero_as_administrator() {
    assert_eq!(Permission::from_u8(1), Ok(Permission::administrator()));
    assert_eq!(Permission::from_u8(0), Ok(Permission::none()));
    let v = Permission::from_u8(16).unwrap();
    assert!(v.own && !v.admin && !v.random);
    let w = Permission::from_u8(17).unwrap();
    assert!(w.own && w.admin);
}

#[test]
fn default_grants_nothing() {
    let v = Permission::default();
    assert_eq!(v, Permission::none());
    for c in ALL {
        assert!(!v.has(c));
    }
}

#[test]
fn positions_are_in_schema_order() {
    for (i, c) in ALL.iter().enumerate() {
        assert_eq!(c.position(), i);
        assert_eq!(Capability::from_position(i), Some(*c));
    }
    assert_eq!(Capability::from_position(6), None);
    assert_eq!(Capability::from_position(usize::MAX), None);
}
