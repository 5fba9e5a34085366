use pw_monitor::permissions::{
    Permission, PermissionFlags, PERM_ALL, PERM_M, PERM_R, PERM_W, PERM_X,
};

#[test]
fn named_permissions_have_their_bits() {
    assert_eq!(PERM_R, 0o400);
    assert_eq!(PERM_W, 0o200);
    assert_eq!(PERM_X, 0o100);
    assert_eq!(PERM_M, 0o010);
    assert_eq!(PERM_ALL, 0o710);
    assert_eq!(PermissionFlags::r().bits(), 256);
    assert_eq!(PermissionFlags::w().bits(), 128);
    assert_eq!(PermissionFlags::x().bits(), 64);
    assert_eq!(PermissionFlags::m().bits(), 8);
}

#[test]
fn empty_and_all() {
    assert_eq!(PermissionFlags::empty().bits(), 0);
    assert!(PermissionFlags::empty().is_empty());
    assert_eq!(PermissionFlags::all().bits(), 456);
    assert!(!PermissionFlags::all().is_empty());
    let all = PermissionFlags::r()
        .union(PermissionFlags::w())
        .union(PermissionFlags::x())
        .union(PermissionFlags::m());
    assert_eq!(all, PermissionFlags::all());
}

#[test]
fn from_bits_accepts_named_bits_only() {
    assert_eq!(PermissionFlags::from_bits(0), Some(PermissionFlags::empty()));
    assert_eq!(
        PermissionFlags::from_bits(0o600),
        Some(PermissionFlags::r().union(PermissionFlags::w()))
    );
    assert_eq!(PermissionFlags::from_bits(0o710), Some(PermissionFlags::all()));
    assert_eq!(PermissionFlags::from_bits(0o020), None);
    assert_eq!(PermissionFlags::from_bits(0o401), None);
    assert_eq!(PermissionFlags::from_bits(u32::MAX), None);
}

#[test]
fn from_bits_truncate_drops_unnamed_bits() {
    assert_eq!(PermissionFlags::from_bits_truncate(0o777).bits(), 0o710);
    assert_eq!(PermissionFlags::from_bits_truncate(0o020).bits(), 0);
    assert_eq!(PermissionFlags::from_bits_truncate(u32::MAX), PermissionFlags::all());
    assert_eq!(PermissionFlags::from_bits_truncate(0o400), PermissionFlags::r());
}

#[test]
fn from_bits_retain_keeps_every_bit() {
    assert_eq!(PermissionFlags::from_bits_retain(0o777).bits(), 0o777);
    assert_eq!(PermissionFlags::from_bits_retain(u32::MAX).bits(), u32::MAX);
    assert_eq!(PermissionFlags::from_bits_retain(0o020).bits(), 0o020);
    let flags = PermissionFlags::r().union(PermissionFlags::m());
    assert_eq!(PermissionFlags::from_bits_retain(flags.bits()), flags);
}

#[test]
fn contains_asks_for_every_bit() {
    let rw = PermissionFlags::r().union(PermissionFlags::w());
    assert!(rw.contains(PermissionFlags::r()));
    assert!(rw.contains(PermissionFlags::w()));
    assert!(rw.contains(rw));
    assert!(rw.contains(PermissionFlags::empty()));
    assert!(!rw.contains(PermissionFlags::x()));
    assert!(!rw.contains(PermissionFlags::r().union(PermissionFlags::x())));
    assert!(!PermissionFlags::empty().contains(PermissionFlags::m()));
}

#[test]
fn union_intersection_difference() {
    let rw = PermissionFlags::r().union(PermissionFlags::w());
    let wx = PermissionFlags::w().union(PermissionFlags::x());
    assert_eq!(rw.bits(), 0o600);
    assert_eq!(rw.union(wx).bits(), 0o700);
    assert_eq!(rw.intersection(wx), PermissionFlags::w());
    assert_eq!(rw.difference(wx), PermissionFlags::r());
    assert_eq!(wx.difference(rw), PermissionFlags::x());
    assert_eq!(rw.difference(rw), PermissionFlags::empty());
    assert_eq!(rw.intersection(PermissionFlags::m()), PermissionFlags::empty());
}

#[test]
fn permission_holds_id_and_flags() {
    let rwx = PermissionFlags::from_bits_retain(0o700);
    let permission = Permission::new(42, rwx);
    assert_eq!(permission.id(), 42);
    assert_eq!(permission.permission_flags(), rwx);
    assert_eq!(permission.permission_flags().bits(), 0o700);
}

#[test]
fn permission_setters_change_one_part_each() {
    let mut permission = Permission::new(1, PermissionFlags::r());
    permission.set_id(7);
    assert_eq!(permission.id(), 7);
    assert_eq!(permission.permission_flags(), PermissionFlags::r());
    permission.set_permission_flags(PermissionFlags::all());
    assert_eq!(permission.id(), 7);
    assert_eq!(permission.permission_flags(), PermissionFlags::all());
    permission.set_id(u32::MAX);
    assert_eq!(permission.id(), u32::MAX);
}

#[test]
fn permission_keeps_unnamed_bits() {
    let odd = PermissionFlags::from_bits_retain(0o020 | 0o400);
    let mut permission = Permission::new(3, PermissionFlags::empty());
    assert!(permission.permission_flags().is_empty());
    permission.set_permission_flags(odd);
    assert_eq!(permission.permission_flags().bits(), 0o420);
    let copy = permission;
    assert_eq!(copy.id(), permission.id());
    assert_eq!(copy.permission_flags(), permission.permission_flags());
}

#[test]
fn permission_debug_names_the_parts() {
    let shown = format!("{:?}", Permission::new(5, PermissionFlags::r()));
    assert!(shown.starts_with("Permission"));
    assert!(shown.contains("id: 5"));
    assert!(shown.contains("permission_flags"));
    assert!(shown.contains("256"));
}
