use user_auth::permissions::{Permissions, Role, RoleSet};
use user_auth::user::{parse_roles, AttributeValue, Attribute, Item, ItemError, User};

fn role_set(roles: &[Role]) -> RoleSet {
    let mut set = RoleSet::new();
    for role in roles {
        set.insert(*role);
    }
    set
}

fn user_with(id: &str, roles: &[Role]) -> User {
    User::new(
        id.to_string(),
        "Name".to_string(),
        "name@example.com".to_string(),
        "org".to_string(),
        "Org".to_string(),
        role_set(roles),
    )
}

#[test]
fn test_user_permissions() {
    let mut roles = RoleSet::new();
    roles.insert(Role::Reader);
    roles.insert(Role::Writer);

    let user = User::new(
        "2".to_string(),
        "Bob".to_string(),
        "bob@example.com".to_string(),
        "org_456".to_string(),
        "ExampleOrg".to_string(),
        roles,
    );

    let permissions = user.permissions();
    assert!(permissions.contains(Permissions::read()));
    assert!(permissions.contains(Permissions::write()));
    assert!(permissions.contains(Permissions::create()));
    assert!(!permissions.contains(Permissions::delete()));
}

#[test]
fn test_add_remove_role() {
    let mut roles = RoleSet::new();
    roles.insert(Role::Reader);

    let mut user = User::new(
        "3".to_string(),
        "Charlie".to_string(),
        "charlie@example.com".to_string(),
        "org_789".to_string(),
        "ExampleOrg".to_string(),
        roles,
    );

    assert!(user.has_role(Role::Reader));
    assert!(user.has_permission(Permissions::read()));
    assert!(!user.has_permission(Permissions::write()));

    user.remove_role(Role::Reader);
    assert!(!user.has_role(Role::Reader));
    assert!(!user.has_permission(Permissions::read()));

    user.add_role(Role::Writer);
    assert!(user.has_role(Role::Writer));
    assert!(user.has_permission(Permissions::write()));
    assert!(user.has_permission(Permissions::create()));

    user.remove_role(Role::Writer);
    assert!(!user.has_role(Role::Writer));
    assert!(!user.has_permission(Permissions::read()));
    assert!(!user.has_permission(Permissions::write()));
    assert!(!user.has_permission(Permissions::create()));
}

#[test]
fn test_user_roles() {
    let mut roles = RoleSet::new();
    roles.insert(Role::Reader);
    roles.insert(Role::Writer);

    let user = User::new(
        "4".to_string(),
        "Alice".to_string(),
        "alice@example.com".to_string(),
        "org_123".to_string(),
        "ExampleOrg".to_string(),
        roles,
    );

    let roles = user.roles();
    assert!(roles.contains(&Role::Reader));
    assert!(roles.contains(&Role::Writer));
    assert_eq!(roles, vec![Role::Reader, Role::Writer]);
}

#[test]
fn test_role_permissions() {
    assert_eq!(
        Role::Admin.permissions(),
        Permissions::read()
            .union(Permissions::write())
            .union(Permissions::create())
            .union(Permissions::delete())
            .union(Permissions::update())
    );
    assert_eq!(Role::Reader.permissions(), Permissions::read());
    assert_eq!(
        Role::Writer.permissions(),
        Permissions::read().union(Permissions::write()).union(Permissions::create())
    );
}

#[test]
fn test_permission_bits() {
    assert_eq!(Permissions::read().bits(), 0b0_0001);
    assert_eq!(Permissions::write().bits(), 0b0_0010);
    assert_eq!(Permissions::create().bits(), 0b0_0100);
    assert_eq!(Permissions::delete().bits(), 0b0_1000);
    assert_eq!(Permissions::update().bits(), 0b1_0000);
    assert_eq!(Permissions::all().bits(), 0b1_1111);
    assert_eq!(Permissions::empty().bits(), 0);
    assert_eq!(Role::Admin.permissions().bits(), 31);
    assert_eq!(Role::Writer.permissions().bits(), 7);
    assert_eq!(Role::Reader.permissions().bits(), 1);
    assert_eq!(Permissions::from_bits_truncate(0xff).bits(), 31);
    assert_eq!(Permissions::from_bits_truncate(0b10_0110).bits(), 0b0_0110);
    assert!(Permissions::empty().is_empty());
    assert!(!Permissions::read().is_empty());
    assert!(Permissions::read().intersects(Role::Writer.permissions()));
    assert!(!Permissions::delete().intersects(Role::Writer.permissions()));
}

#[test]
fn test_permission_names() {
    assert_eq!(Permissions::empty().to_string(), "");
    assert_eq!(Permissions::read().to_string(), "READ");
    assert_eq!(Permissions::delete().to_string(), "DELETE");
    assert_eq!(Role::Writer.permissions().to_string(), "READ, WRITE, CREATE");
    assert_eq!(Role::Admin.permissions().to_string(), "READ, WRITE, CREATE, DELETE, UPDATE");
    assert_eq!(Permissions::update().union(Permissions::read()).to_string(), "READ, UPDATE");
}

#[test]
fn test_role_hierarchy() {
    let admin = Role::Admin.permissions();
    let writer = Role::Writer.permissions();
    let reader = Role::Reader.permissions();
    assert!(admin.contains(writer) && admin != writer);
    assert!(writer.contains(reader) && writer != reader);
    assert!(!writer.contains(admin));
    assert!(!reader.contains(writer));
    for role in [Role::Reader, Role::Writer] {
        assert!(!role.permissions().intersects(Permissions::delete()));
        assert!(!role.permissions().intersects(Permissions::update()));
    }
    assert!(admin.contains(Permissions::delete().union(Permissions::update())));
}

#[test]
fn test_effective_permissions_do_not_depend_on_order() {
    let orders: [[Role; 3]; 6] = [
        [Role::Admin, Role::Reader, Role::Writer],
        [Role::Admin, Role::Writer, Role::Reader],
        [Role::Reader, Role::Admin, Role::Writer],
        [Role::Reader, Role::Writer, Role::Admin],
        [Role::Writer, Role::Admin, Role::Reader],
        [Role::Writer, Role::Reader, Role::Admin],
    ];
    for order in orders {
        for take in 0..=3 {
            let mut user = user_with("u", &[]);
            let mut expected = Permissions::empty();
            for role in &order[..take] {
                user.add_role(*role);
                expected = expected.union(role.permissions());
            }
            assert_eq!(user.permissions(), expected);
            let mut other = user_with("u", &[]);
            other.set_from_roles(order[..take].iter().rev().cloned().collect());
            assert_eq!(other.permissions(), expected);
            assert_eq!(other.roles(), user.roles());
        }
    }
    assert_eq!(user_with("u", &[]).permissions(), Permissions::empty());
}

#[test]
fn test_has_permission_is_containment() {
    let user = user_with("u", &[Role::Reader, Role::Writer]);
    for bits in 0u32..64 {
        let wanted = Permissions::from_bits_truncate(bits);
        assert_eq!(user.has_permission(wanted), wanted.bits() & 7 == wanted.bits());
    }
    assert!(user.has_permission(Permissions::empty()));
    assert!(user_with("u", &[]).has_permission(Permissions::empty()));
    assert!(!user_with("u", &[]).has_permission(Permissions::read()));
    assert!(user.has_permission(Permissions::read().union(Permissions::create())));
    assert!(!user.has_permission(Permissions::read().union(Permissions::delete())));
}

#[test]
fn test_add_then_remove_restores_permissions() {
    for start in [vec![], vec![Role::Reader], vec![Role::Writer], vec![Role::Admin, Role::Reader]] {
        for role in [Role::Admin, Role::Reader, Role::Writer] {
            if start.contains(&role) {
                continue;
            }
            let mut user = user_with("u", &start);
            let before = user.permissions();
            user.add_role(role);
            user.remove_role(role);
            assert_eq!(user.permissions(), before);
            assert_eq!(user.roles(), role_set(&start).to_vec());
        }
    }
    let mut covered = user_with("u", &[Role::Admin, Role::Reader]);
    let before = covered.permissions();
    covered.add_role(Role::Reader);
    covered.remove_role(Role::Reader);
    assert_eq!(covered.permissions(), before);

    let mut held = user_with("u", &[Role::Reader]);
    held.add_role(Role::Reader);
    held.remove_role(Role::Reader);
    assert_eq!(held.permissions(), Permissions::empty());
}

#[test]
fn test_adding_and_removing_roles_is_idempotent() {
    let mut user = user_with("u", &[Role::Reader]);
    user.add_role(Role::Writer);
    let once = (user.roles(), user.permissions());
    user.add_role(Role::Writer);
    assert_eq!((user.roles(), user.permissions()), once);
    user.remove_role(Role::Admin);
    assert_eq!((user.roles(), user.permissions()), once);
    user.remove_role(Role::Writer);
    user.remove_role(Role::Writer);
    assert_eq!(user.roles(), vec![Role::Reader]);
}

#[test]
fn test_role_set_operations() {
    let mut set = RoleSet::new();
    assert!(set.is_empty());
    assert_eq!(set.len(), 0);
    assert!(set.insert(Role::Writer));
    assert!(!set.insert(Role::Writer));
    assert!(set.insert(Role::Admin));
    assert_eq!(set.len(), 2);
    assert!(set.contains(Role::Admin) && set.contains(Role::Writer) && !set.contains(Role::Reader));
    assert_eq!(set.to_vec(), vec![Role::Admin, Role::Writer]);
    assert!(set.remove(Role::Admin));
    assert!(!set.remove(Role::Admin));
    assert_eq!(set.to_vec(), vec![Role::Writer]);
    assert_eq!(set.permissions(), Role::Writer.permissions());
    assert!(!set.is_empty());
}

#[test]
fn test_join_roles() {
    assert_eq!(user_with("u", &[]).join_roles(), "");
    assert_eq!(user_with("u", &[Role::Reader]).join_roles(), "Reader");
    assert_eq!(user_with("u", &[Role::Writer, Role::Admin]).join_roles(), "Admin:Writer");
    assert_eq!(user_with("u", &[Role::Admin, Role::Writer]).join_roles(), "Admin:Writer");
    assert_eq!(
        user_with("u", &[Role::Writer, Role::Reader, Role::Admin]).join_roles(),
        "Admin:Reader:Writer"
    );
    assert_eq!(Role::Admin.to_string(), "Admin");
    assert_eq!(Role::Reader.name(), "Reader");
    assert_eq!(Role::Writer.name(), "Writer");
    assert_eq!(Role::parse("Admin"), Some(Role::Admin));
    assert_eq!(Role::parse("admin"), None);
    assert_eq!(Role::parse(""), None);
    assert_eq!(Role::parse("Writers"), None);
}

#[test]
fn test_role_sets_round_trip() {
    let all = [Role::Admin, Role::Reader, Role::Writer];
    for mask in 1u8..8 {
        let roles: Vec<Role> =
            all.iter().enumerate().filter(|(i, _)| mask & (1 << i) != 0).map(|(_, r)| *r).collect();
        let user = user_with("u", &roles);
        let written = user.join_roles();
        let read = parse_roles(&written).unwrap();
        assert_eq!(read, role_set(&roles), "written {:?}", written);
    }
}

#[test]
fn test_parse_roles() {
    assert_eq!(parse_roles("Writer:Admin").unwrap(), role_set(&[Role::Admin, Role::Writer]));
    assert_eq!(parse_roles(" Reader : Writer ").unwrap(), role_set(&[Role::Reader, Role::Writer]));
    assert_eq!(parse_roles("Reader:Reader").unwrap(), role_set(&[Role::Reader]));
    assert_eq!(parse_roles("\tAdmin\n").unwrap(), role_set(&[Role::Admin]));
    let unknown = |text: &str| match parse_roles(text) {
        Err(ItemError::UnknownRole(token)) => token,
        other => panic!("{:?} gave {:?}", text, other),
    };
    assert_eq!(unknown(""), "");
    assert_eq!(unknown("Owner"), "Owner");
    assert_eq!(unknown("Admin:Owner:Nobody"), "Owner");
    assert_eq!(unknown("Admin:"), "");
    assert_eq!(unknown(":Admin"), "");
    assert_eq!(unknown("Admin, Writer"), "Admin, Writer");
    assert_eq!(unknown("Admin: wri ter :Reader"), "wri ter");
    assert_eq!(unknown("admin"), "admin");
    assert_eq!(ItemError::UnknownRole("Owner".to_string()).message(), "Unknown role: Owner");
}

fn item(pairs: &[(&str, &str)]) -> Item {
    let mut item = Item::new();
    for (name, value) in pairs {
        item.set_text(name.to_string(), value.to_string());
    }
    item
}

#[test]
fn test_user_from_item() {
    let full = [
        ("id", "u-1"),
        ("name", "Alice"),
        ("email", "alice@example.com"),
        ("organization_id", "o-1"),
        ("organization_name", "Org"),
        ("roles", "Reader:Writer"),
    ];
    let user = User::from_item(&item(&full)).unwrap();
    assert_eq!(user.id, "u-1");
    assert_eq!(user.name, "Alice");
    assert_eq!(user.email, "alice@example.com");
    assert_eq!(user.organization_id, "o-1");
    assert_eq!(user.organization_name, "Org");
    assert_eq!(user.roles(), vec![Role::Reader, Role::Writer]);

    let expected = [
        "Missing or invalid 'id' attribute",
        "Missing or invalid 'name' attribute",
        "Missing or invalid 'email' attribute",
        "Missing or invalid 'organization_id' attribute",
        "Missing or invalid 'organization_name' attribute",
        "Missing or invalid 'roles' attribute",
    ];
    for (missing, message) in expected.iter().enumerate() {
        let rest: Vec<(&str, &str)> =
            full.iter().enumerate().filter(|(i, _)| *i != missing).map(|(_, p)| *p).collect();
        assert_eq!(User::from_item(&item(&rest)).unwrap_err().message(), *message);
        let from: Vec<(&str, &str)> = full[missing + 1..].to_vec();
        assert_eq!(User::from_item(&item(&from)).unwrap_err().message(), expected[0]);
    }

    let mut other = item(&full);
    other.attributes.push(Attribute { name: "email".to_string(), value: AttributeValue::Other });
    assert!(matches!(User::from_item(&other), Err(ItemError::MissingEmail)));
    other.set_text("email".to_string(), "new@example.com".to_string());
    assert_eq!(User::from_item(&other).unwrap().email, "new@example.com");

    let mut unknown = item(&full);
    unknown.set_text("roles".to_string(), "Reader:Owner".to_string());
    assert_eq!(User::from_item(&unknown).unwrap_err().message(), "Unknown role: Owner");
    assert_eq!(item(&full).get_text("name").map(|s| s.as_str()), Some("Alice"));
    assert_eq!(item(&full).get_text("nothing"), None);
}

#[test]
fn test_user_clone_keeps_every_field() {
    let user = user_with("u-9", &[Role::Admin]);
    let copy = user.clone();
    assert_eq!(copy.id, user.id);
    assert_eq!(copy.name, user.name);
    assert_eq!(copy.email, user.email);
    assert_eq!(copy.organization_id, user.organization_id);
    assert_eq!(copy.organization_name, user.organization_name);
    assert_eq!(copy.roles, user.roles);
}
