use user_auth::errors::ToLambdaError;
use user_auth::permissions::{Role, RoleSet};
use user_auth::repository::{
    find_organization_id_by_name, is_first_user_in_organization, organization_exists,
    organization_query, update_request, user_from_query, user_from_update, user_item, user_key,
    user_query, users_from_query, RepositoryError,
};
use user_auth::user::{Attribute, AttributeValue, Item, ItemError, User};

fn item(pairs: &[(&str, &str)]) -> Item {
    let mut item = Item::new();
    for (name, value) in pairs {
        item.set_text(name.to_string(), value.to_string());
    }
    item
}

fn record(id: &str, roles: &str) -> Item {
    item(&[
        ("id", id),
        ("name", "Alice"),
        ("email", "alice@example.com"),
        ("organization_id", "o-1"),
        ("organization_name", "Org"),
        ("roles", roles),
    ])
}

fn user() -> User {
    let mut roles = RoleSet::new();
    roles.insert(Role::Writer);
    roles.insert(Role::Admin);
    User::new(
        "u-1".to_string(),
        "Alice".to_string(),
        "alice@example.com".to_string(),
        "o-1".to_string(),
        "Org".to_string(),
        roles,
    )
}

#[test]
fn test_user_key_and_item() {
    let key = user_key("u-1", "o-1");
    assert_eq!(key.attributes.len(), 2);
    assert_eq!(key.get_text("id").unwrap(), "u-1");
    assert_eq!(key.get_text("organization_id").unwrap(), "o-1");

    let item = user_item(&user());
    let pairs: Vec<(String, String)> = item
        .attributes
        .iter()
        .map(|a| match &a.value {
            AttributeValue::Text(text) => (a.name.clone(), text.clone()),
            AttributeValue::Other => panic!("no text"),
        })
        .collect();
    let expected = [
        ("id", "u-1"),
        ("name", "Alice"),
        ("email", "alice@example.com"),
        ("organization_id", "o-1"),
        ("organization_name", "Org"),
        ("roles", "Admin:Writer"),
    ];
    assert_eq!(pairs.len(), expected.len());
    for ((name, value), (expected_name, expected_value)) in pairs.iter().zip(expected) {
        assert_eq!((name.as_str(), value.as_str()), (expected_name, expected_value));
    }
    assert!(item.get_text("user_name").is_none());
}

#[test]
fn test_queries() {
    let query = user_query("u-1");
    assert_eq!(query.key_condition_expression, "#id = :id_value");
    assert_eq!(query.attribute_names.len(), 1);
    assert_eq!(query.attribute_names[0].placeholder, "#id");
    assert_eq!(query.attribute_names[0].name, "id");
    assert_eq!(query.attribute_values.attributes.len(), 1);
    assert_eq!(query.attribute_values.get_text(":id").unwrap(), "u-1");

    let query = organization_query("o-1");
    assert_eq!(query.key_condition_expression, "#organization_id = :organization_id_value");
    assert_eq!(query.attribute_names[0].placeholder, "#organization_id");
    assert_eq!(query.attribute_names[0].name, "organization_id");
    assert_eq!(query.attribute_values.get_text(":organization_id").unwrap(), "o-1");

    let update = update_request(&user());
    assert_eq!(update.key.get_text("id").unwrap(), "u-1");
    assert_eq!(update.key.get_text("organization_id").unwrap(), "o-1");
    assert_eq!(update.attribute_names.len(), 4);
    assert_eq!(update.attribute_values.attributes.len(), 4);
    assert_eq!(update.attribute_values.get_text(":roles").unwrap(), "Admin:Writer");
    assert_eq!(update.attribute_values.get_text(":email").unwrap(), "alice@example.com");
}

#[test]
fn test_user_from_query() {
    assert!(matches!(user_from_query(&None), Err(RepositoryError::UserNotFound)));
    assert!(matches!(user_from_query(&Some(vec![])), Err(RepositoryError::UserNotFound)));
    let found = user_from_query(&Some(vec![record("u-1", "Reader"), record("u-2", "Admin")])).unwrap();
    assert_eq!(found.id, "u-1");
    assert_eq!(found.roles(), vec![Role::Reader]);
    let bad = user_from_query(&Some(vec![record("u-1", "Owner"), record("u-2", "Admin")]));
    match bad {
        Err(RepositoryError::InvalidItem(ItemError::UnknownRole(token))) => assert_eq!(token, "Owner"),
        other => panic!("{:?}", other),
    }
    assert_eq!(RepositoryError::UserNotFound.message(), "Unable to get user by id");
    assert_eq!(RepositoryError::NoItems.message(), "No items found");
    assert_eq!(RepositoryError::UpdateFailed.message(), "dynamodb update item failed");
    assert_eq!(RepositoryError::Store("x".to_string()).message(), "x");
    assert_eq!(
        RepositoryError::InvalidItem(ItemError::MissingId).message(),
        "Failed to parse user from item: Missing or invalid 'id' attribute"
    );
    assert_eq!(
        RepositoryError::NoItems.to_lambda_error().to_string(),
        "Internal server error: No items found"
    );
    assert_eq!(
        ItemError::MissingRoles.to_lambda_error().to_string(),
        "Internal server error: Missing or invalid 'roles' attribute"
    );
}

#[test]
fn test_user_from_update() {
    assert!(matches!(user_from_update(&None), Err(RepositoryError::UpdateFailed)));
    assert_eq!(user_from_update(&Some(record("u-1", "Admin"))).unwrap().id, "u-1");
    assert!(matches!(
        user_from_update(&Some(item(&[("id", "u-1")]))),
        Err(RepositoryError::InvalidItem(ItemError::MissingName))
    ));
}

#[test]
fn test_users_from_query() {
    assert!(matches!(users_from_query(&None), Err(RepositoryError::NoItems)));
    assert_eq!(users_from_query(&Some(vec![])).unwrap().len(), 0);
    let users = users_from_query(&Some(vec![record("a", "Admin"), record("b", "Reader:Writer")])).unwrap();
    assert_eq!(users.len(), 2);
    assert_eq!(users[0].id, "a");
    assert_eq!(users[1].roles(), vec![Role::Reader, Role::Writer]);
    let bad = users_from_query(&Some(vec![
        record("a", "Admin"),
        record("b", "Nobody"),
        item(&[("name", "x")]),
    ]));
    assert_eq!(
        bad.unwrap_err().message(),
        "Failed to parse user from item: Unknown role: Nobody"
    );
}

fn records() -> Option<Vec<Item>> {
    let mut no_text = item(&[("organization_name", "Third"), ("organization_id", "o-3")]);
    no_text.attributes.push(Attribute {
        name: "organization_id".to_string(),
        value: AttributeValue::Other,
    });
    Some(vec![
        item(&[("organization_name", "First"), ("organization_id", "o-1")]),
        item(&[("organization_name", "Second")]),
        item(&[("organization_id", "o-0")]),
        item(&[("organization_name", "Second"), ("organization_id", "o-2")]),
        item(&[("organization_name", "Second"), ("organization_id", "o-2b")]),
        no_text,
    ])
}

#[test]
fn test_find_organization() {
    assert_eq!(find_organization_id_by_name(&records(), "First").unwrap(), "o-1");
    assert_eq!(find_organization_id_by_name(&records(), "Second").unwrap(), "o-2");
    assert!(find_organization_id_by_name(&records(), "Third").is_none());
    assert!(find_organization_id_by_name(&records(), "first").is_none());
    assert!(find_organization_id_by_name(&records(), "").is_none());
    assert!(find_organization_id_by_name(&None, "First").is_none());
    assert!(find_organization_id_by_name(&Some(vec![]), "First").is_none());

    assert!(organization_exists(&records(), "First"));
    assert!(organization_exists(&records(), "Second"));
    assert!(organization_exists(&records(), "Third"));
    assert!(!organization_exists(&records(), "Fourth"));
    assert!(!organization_exists(&None, "First"));
    assert!(!is_first_user_in_organization(&records(), "Third"));
    assert!(is_first_user_in_organization(&records(), "Fourth"));
    assert!(is_first_user_in_organization(&None, "First"));
    assert!(is_first_user_in_organization(&Some(vec![]), "First"));
}

#[test]
fn test_written_record_is_read_back() {
    let written = user_item(&user());
    let read = User::from_item(&written).unwrap();
    assert_eq!(read.id, "u-1");
    assert_eq!(read.name, "Alice");
    assert_eq!(read.email, "alice@example.com");
    assert_eq!(read.organization_id, "o-1");
    assert_eq!(read.organization_name, "Org");
    assert_eq!(read.roles(), vec![Role::Admin, Role::Writer]);

    let update = update_request(&user());
    let mut stored = user_key("u-1", "o-1");
    let values = [":email", ":name", ":organization_name", ":roles"];
    for (pair, value) in update.attribute_names.iter().zip(values) {
        let text = update.attribute_values.get_text(value).unwrap().clone();
        stored.set_text(pair.name.clone(), text);
    }
    let read = User::from_item(&stored).unwrap();
    assert_eq!(read.name, "Alice");
    assert_eq!(read.roles(), vec![Role::Admin, Role::Writer]);
}
