//! What the store is asked and how its answers are read: the records of
//! users and the organizations that they name.

use crate::errors::{LambdaError, LambdaErrorView, ToLambdaError};
use crate::text::{first_where, lemma_first_where};
use crate::permissions::Role;
use crate::user::{
    encode_roles, item_error_message, lemma_roles_round_trip, user_of_item, Attribute,
    AttributeValue, Item, ItemError, ItemErrorView, User, UserView,
};
use vstd::prelude::*;
use vstd::string::StringExecFns;

verus! {

/// What can go wrong between the repository and the store.
#[derive(Debug)]
pub enum RepositoryError {
    /// The query for a user brought no list of records, or an empty one.
    UserNotFound,
    /// The query for an organization's users brought no list of records.
    NoItems,
    /// A record is no user.
    InvalidItem(ItemError),
    /// The update brought no record.
    UpdateFailed,
    /// The store refused the request, with the text of its answer.
    Store(String),
}

/// A `RepositoryError`, with its text as a sequence of characters.
pub enum RepositoryErrorView {
    UserNotFound,
    NoItems,
    InvalidItem(ItemErrorView),
    UpdateFailed,
    Store(Seq<char>),
}

impl View for RepositoryError {
    type V = RepositoryErrorView;

    open spec fn view(&self) -> RepositoryErrorView {
        match self {
            RepositoryError::UserNotFound => RepositoryErrorView::UserNotFound,
            RepositoryError::NoItems => RepositoryErrorView::NoItems,
            RepositoryError::InvalidItem(e) => RepositoryErrorView::InvalidItem(e@),
            RepositoryError::UpdateFailed => RepositoryErrorView::UpdateFailed,
            RepositoryError::Store(text) => RepositoryErrorView::Store(text@),
        }
    }
}

/// The message of a `RepositoryError`.
pub open spec fn repository_error_message(e: RepositoryErrorView) -> Seq<char> {
    match e {
        RepositoryErrorView::UserNotFound => "Unable to get user by id"@,
        RepositoryErrorView::NoItems => "No items found"@,
        RepositoryErrorView::InvalidItem(inner) => "Failed to parse user from item: "@
            + item_error_message(inner),
        RepositoryErrorView::UpdateFailed => "dynamodb update item failed"@,
        RepositoryErrorView::Store(text) => text,
    }
}

impl RepositoryError {
    /// The message of this error.
    pub fn message(&self) -> (r: String)
        ensures
            r@ == repository_error_message(self@),
    {
        match self {
            RepositoryError::UserNotFound => "Unable to get user by id".to_owned(),
            RepositoryError::NoItems => "No items found".to_owned(),
            RepositoryError::InvalidItem(inner) => {
                let detail = inner.message();
                "Failed to parse user from item: ".to_owned().concat(detail.as_str())
            },
            RepositoryError::UpdateFailed => "dynamodb update item failed".to_owned(),
            RepositoryError::Store(text) => text.clone(),
        }
    }
}

impl ToLambdaError for RepositoryError {
    /// An internal error with the message of this error.
    fn to_lambda_error(self) -> (r: LambdaError)
        ensures
            r@ == LambdaErrorView::InternalError(repository_error_message(self@)),
    {
        LambdaError::InternalError(self.message())
    }
}

/// The key of a user's record: the identifiers of the user and of the
/// organization.
pub fn user_key(user_id: &str, organization_id: &str) -> (r: Item)
    ensures
        r.attributes@.len() == 2,
        r.text("id"@) == Some(user_id@),
        r.text("organization_id"@) == Some(organization_id@),
{
    let mut key = Item::new();
    key.set_text("id".to_owned(), user_id.to_owned());
    key.set_text("organization_id".to_owned(), organization_id.to_owned());
    proof {
        reveal_strlit("id");
        reveal_strlit("organization_id");
        assert("id"@ != "organization_id"@) by {
            assert("id"@.len() != "organization_id"@.len());
        }
    }
    key
}

/// The six names under which a new user is written.
pub open spec fn is_written_name(name: Seq<char>) -> bool {
    name == "id"@ || name == "name"@ || name == "email"@ || name == "organization_id"@
        || name == "organization_name"@ || name == "roles"@
}

/// Whether `item` is the record that is written for the user `user`.
pub open spec fn is_record_of(item: Item, user: UserView) -> bool {
    &&& item.text("id"@) == Some(user.id)
    &&& item.text("name"@) == Some(user.name)
    &&& item.text("email"@) == Some(user.email)
    &&& item.text("organization_id"@) == Some(user.organization_id)
    &&& item.text("organization_name"@) == Some(user.organization_name)
    &&& item.text("roles"@) == Some(encode_roles(user.roles))
}

/// A record that is written for a user with at least one role is read back
/// as that user.
pub proof fn lemma_record_round_trip(item: Item, user: UserView)
    requires
        is_record_of(item, user),
        user.roles != Set::<Role>::empty(),
    ensures
        user_of_item(item) == Ok::<UserView, ItemErrorView>(user),
{
    lemma_roles_round_trip(user.roles);
}

/// The record that is written for a new user: identifier, name, email,
/// identifier and name of the organization, and the roles as they are
/// encoded.
pub fn user_item(user: &User) -> (r: Item)
    ensures
        r.attributes@.len() == 6,
        is_record_of(r, user@),
        forall|name: Seq<char>| !is_written_name(name) ==> r.text(name) is None,
        user@.roles != Set::<Role>::empty() ==> user_of_item(r) == Ok::<UserView, ItemErrorView>(
            user@,
        ),
{
    proof {
        lemma_names_differ();
    }
    let mut item = Item::new();
    assert(forall|name: Seq<char>| item.text(name) is None);
    item.set_text("id".to_owned(), user.id.clone());
    item.set_text("name".to_owned(), user.name.clone());
    item.set_text("email".to_owned(), user.email.clone());
    item.set_text("organization_id".to_owned(), user.organization_id.clone());
    item.set_text("organization_name".to_owned(), user.organization_name.clone());
    item.set_text("roles".to_owned(), user.join_roles());
    proof {
        if user@.roles != Set::<Role>::empty() {
            lemma_record_round_trip(item, user@);
        }
    }
    item
}

/// The names of the attributes of a user's record differ from each other.
pub proof fn lemma_names_differ()
    ensures
        "id"@ != "name"@,
        "id"@ != "email"@,
        "id"@ != "organization_id"@,
        "id"@ != "organization_name"@,
        "id"@ != "roles"@,
        "name"@ != "email"@,
        "name"@ != "organization_id"@,
        "name"@ != "organization_name"@,
        "name"@ != "roles"@,
        "email"@ != "organization_id"@,
        "email"@ != "organization_name"@,
        "email"@ != "roles"@,
        "organization_id"@ != "organization_name"@,
        "organization_id"@ != "roles"@,
        "organization_name"@ != "roles"@,
{
    reveal_strlit("id");
    reveal_strlit("name");
    reveal_strlit("email");
    reveal_strlit("organization_id");
    reveal_strlit("organization_name");
    reveal_strlit("roles");
    assert("id"@.len() == 2 && "name"@.len() == 4 && "email"@.len() == 5
        && "organization_id"@.len() == 15 && "organization_name"@.len() == 17 && "roles"@.len()
        == 5);
    assert("email"@[0] != "roles"@[0]);
}

/// A pair of a placeholder and the name it stands for.
#[derive(Clone, Debug)]
pub struct NamePair {
    pub placeholder: String,
    pub name: String,
}

/// What the store is asked in a query by one attribute.
#[derive(Debug)]
pub struct QueryRequest {
    pub key_condition_expression: String,
    pub attribute_names: Vec<NamePair>,
    pub attribute_values: Item,
}

/// What the store is asked in an update of a user.
#[derive(Debug)]
pub struct UpdateRequest {
    pub key: Item,
    pub update_expression: String,
    pub attribute_names: Vec<NamePair>,
    pub attribute_values: Item,
}

/// The query for the user with the identifier `user_id`.
pub fn user_query(user_id: &str) -> (r: QueryRequest)
    ensures
        r.key_condition_expression@ == "#id = :id_value"@,
        r.attribute_names@.len() == 1,
        r.attribute_names@[0].placeholder@ == "#id"@,
        r.attribute_names@[0].name@ == "id"@,
        r.attribute_values.attributes@.len() == 1,
        r.attribute_values.text(":id"@) == Some(user_id@),
{
    let mut names: Vec<NamePair> = Vec::new();
    names.push(NamePair { placeholder: "#id".to_owned(), name: "id".to_owned() });
    let mut values = Item::new();
    values.set_text(":id".to_owned(), user_id.to_owned());
    QueryRequest {
        key_condition_expression: "#id = :id_value".to_owned(),
        attribute_names: names,
        attribute_values: values,
    }
}

/// The query for the users of the organization `organization_id`.
pub fn organization_query(organization_id: &str) -> (r: QueryRequest)
    ensures
        r.key_condition_expression@ == "#organization_id = :organization_id_value"@,
        r.attribute_names@.len() == 1,
        r.attribute_names@[0].placeholder@ == "#organization_id"@,
        r.attribute_names@[0].name@ == "organization_id"@,
        r.attribute_values.attributes@.len() == 1,
        r.attribute_values.text(":organization_id"@) == Some(organization_id@),
{
    let mut names: Vec<NamePair> = Vec::new();
    names.push(
        NamePair { placeholder: "#organization_id".to_owned(), name: "organization_id".to_owned() },
    );
    let mut values = Item::new();
    values.set_text(":organization_id".to_owned(), organization_id.to_owned());
    QueryRequest {
        key_condition_expression: "#organization_id = :organization_id_value".to_owned(),
        attribute_names: names,
        attribute_values: values,
    }
}

/// The update that writes email, name, name of the organization and roles
/// of `user` into the record with the user's key.
pub fn update_request(user: &User) -> (r: UpdateRequest)
    ensures
        is_update_of(r, user@),
{
    let key = user_key(user.id.as_str(), user.organization_id.as_str());
    let mut names: Vec<NamePair> = Vec::new();
    names.push(NamePair { placeholder: "#email".to_owned(), name: "email".to_owned() });
    names.push(NamePair { placeholder: "#name".to_owned(), name: "name".to_owned() });
    names.push(
        NamePair {
            placeholder: "#organization_name".to_owned(),
            name: "organization_name".to_owned(),
        },
    );
    names.push(NamePair { placeholder: "#roles".to_owned(), name: "roles".to_owned() });
    proof {
        reveal_strlit(":email");
        reveal_strlit(":name");
        reveal_strlit(":organization_name");
        reveal_strlit(":roles");
        assert(":email"@.len() == 6 && ":name"@.len() == 5 && ":organization_name"@.len()
            == 18 && ":roles"@.len() == 6);
        assert(":email"@[1] != ":roles"@[1]);
    }
    let mut values = Item::new();
    values.set_text(":email".to_owned(), user.email.clone());
    values.set_text(":name".to_owned(), user.name.clone());
    values.set_text(":organization_name".to_owned(), user.organization_name.clone());
    values.set_text(":roles".to_owned(), user.join_roles());
    UpdateRequest {
        key,
        update_expression: "SET #email = :email, #name = :name, #organization_name = :organization_name, #roles = :roles".to_owned(),
        attribute_names: names,
        attribute_values: values,
    }
}

/// Whether `item` holds, under the attributes that `update` names, the
/// values that `update` sets, and the key of `update`.
pub open spec fn is_updated_by(item: Item, update: UpdateRequest) -> bool {
    &&& item.text("id"@) == update.key.text("id"@)
    &&& item.text("organization_id"@) == update.key.text("organization_id"@)
    &&& item.text(update.attribute_names@[0].name@) == update.attribute_values.text(":email"@)
    &&& item.text(update.attribute_names@[1].name@) == update.attribute_values.text(":name"@)
    &&& item.text(update.attribute_names@[2].name@) == update.attribute_values.text(
        ":organization_name"@,
    )
    &&& item.text(update.attribute_names@[3].name@) == update.attribute_values.text(":roles"@)
}

/// Whether `update` is the update that writes `user`.
pub open spec fn is_update_of(update: UpdateRequest, user: UserView) -> bool {
    &&& update.key.text("id"@) == Some(user.id)
    &&& update.key.text("organization_id"@) == Some(user.organization_id)
    &&& update.update_expression@
        == "SET #email = :email, #name = :name, #organization_name = :organization_name, #roles = :roles"@
    &&& update.attribute_names@.len() == 4
    &&& update.attribute_names@[0].placeholder@ == "#email"@
    &&& update.attribute_names@[0].name@ == "email"@
    &&& update.attribute_names@[1].placeholder@ == "#name"@
    &&& update.attribute_names@[1].name@ == "name"@
    &&& update.attribute_names@[2].placeholder@ == "#organization_name"@
    &&& update.attribute_names@[2].name@ == "organization_name"@
    &&& update.attribute_names@[3].placeholder@ == "#roles"@
    &&& update.attribute_names@[3].name@ == "roles"@
    &&& update.attribute_values.text(":email"@) == Some(user.email)
    &&& update.attribute_values.text(":name"@) == Some(user.name)
    &&& update.attribute_values.text(":organization_name"@) == Some(user.organization_name)
    &&& update.attribute_values.text(":roles"@) == Some(encode_roles(user.roles))
}

/// A record that holds what the update of a user with at least one role
/// sets is read back as that user.
pub proof fn lemma_update_round_trip(update: UpdateRequest, item: Item, user: UserView)
    requires
        is_update_of(update, user),
        is_updated_by(item, update),
        user.roles != Set::<Role>::empty(),
    ensures
        user_of_item(item) == Ok::<UserView, ItemErrorView>(user),
{
    lemma_record_round_trip(item, user);
}

/// Whether `r` is the result `v`, texts taken as sequences of characters.
pub open spec fn user_result_is(
    r: Result<User, RepositoryError>,
    v: Result<UserView, RepositoryErrorView>,
) -> bool {
    match r {
        Ok(user) => v == Ok::<UserView, RepositoryErrorView>(user@),
        Err(e) => v == Err::<UserView, RepositoryErrorView>(e@),
    }
}

/// The user that the answer to a query for one user holds: the first
/// record, read as a user. No list of records, or an empty one, is no user.
pub open spec fn user_in_answer(items: Option<Vec<Item>>) -> Result<UserView, RepositoryErrorView> {
    match items {
        None => Err(RepositoryErrorView::UserNotFound),
        Some(list) => if list@.len() == 0 {
            Err(RepositoryErrorView::UserNotFound)
        } else {
            match user_of_item(list@[0]) {
                Ok(user) => Ok(user),
                Err(e) => Err(RepositoryErrorView::InvalidItem(e)),
            }
        },
    }
}

/// Reads the answer to a query for one user.
pub fn user_from_query(items: &Option<Vec<Item>>) -> (r: Result<User, RepositoryError>)
    ensures
        user_result_is(r, user_in_answer(*items)),
{
    match items {
        None => Err(RepositoryError::UserNotFound),
        Some(list) => {
            if list.len() == 0 {
                Err(RepositoryError::UserNotFound)
            } else {
                match User::from_item(&list[0]) {
                    Ok(user) => Ok(user),
                    Err(e) => Err(RepositoryError::InvalidItem(e)),
                }
            }
        },
    }
}

/// The user that the answer to an update holds. No record is a failed
/// update.
pub open spec fn user_in_update(attributes: Option<Item>) -> Result<UserView, RepositoryErrorView> {
    match attributes {
        None => Err(RepositoryErrorView::UpdateFailed),
        Some(item) => match user_of_item(item) {
            Ok(user) => Ok(user),
            Err(e) => Err(RepositoryErrorView::InvalidItem(e)),
        },
    }
}

/// Reads the answer to an update.
pub fn user_from_update(attributes: &Option<Item>) -> (r: Result<User, RepositoryError>)
    ensures
        user_result_is(r, user_in_update(*attributes)),
{
    match attributes {
        None => Err(RepositoryError::UpdateFailed),
        Some(item) => match User::from_item(item) {
            Ok(user) => Ok(user),
            Err(e) => Err(RepositoryError::InvalidItem(e)),
        },
    }
}

/// Whether a record is no user.
pub open spec fn is_invalid_item(item: Item) -> bool {
    user_of_item(item) is Err
}

/// Reads the answer to a query for the users of an organization: every
/// record as a user, in order. No list of records is an error, and so is
/// the first record that is no user.
pub fn users_from_query(items: &Option<Vec<Item>>) -> (r: Result<Vec<User>, RepositoryError>)
    ensures
        match *items {
            None => r is Err && r->Err_0@ == RepositoryErrorView::NoItems,
            Some(list) => {
                let bad = first_where(list@, |item: Item| is_invalid_item(item));
                if bad < list@.len() {
                    &&& r is Err
                    &&& r->Err_0@ == RepositoryErrorView::InvalidItem(
                        user_of_item(list@[bad])->Err_0,
                    )
                } else {
                    &&& r is Ok
                    &&& r->Ok_0@.len() == list@.len()
                    &&& forall|i: int|
                        0 <= i < list@.len() ==> user_of_item(list@[i]) == Ok::<
                            UserView,
                            ItemErrorView,
                        >(#[trigger] r->Ok_0@[i]@)
                }
            },
        },
{
    let list = match items {
        None => {
            return Err(RepositoryError::NoItems);
        },
        Some(list) => list,
    };
    let n: usize = list.len();
    let mut users: Vec<User> = Vec::new();
    let mut i: usize = 0;
    while i < n
        invariant
            n == list@.len(),
            i <= n,
            *items == Some(*list),
            users@.len() == i,
            forall|j: int| 0 <= j < i ==> !is_invalid_item(#[trigger] list@[j]),
            forall|j: int|
                0 <= j < i ==> user_of_item(list@[j]) == Ok::<UserView, ItemErrorView>(
                    #[trigger] users@[j]@,
                ),
        decreases n - i,
    {
        match User::from_item(&list[i]) {
            Ok(user) => {
                assert(!is_invalid_item(list@[i as int]));
                users.push(user);
            },
            Err(e) => {
                proof {
                    assert(is_invalid_item(list@[i as int]));
                    lemma_first_where(list@, |item: Item| is_invalid_item(item), i as int);
                }
                return Err(RepositoryError::InvalidItem(e));
            },
        }
        i = i + 1;
    }
    proof {
        lemma_first_where(list@, |item: Item| is_invalid_item(item), n as int);
    }
    Ok(users)
}

/// Whether a record names the organization `name` and has an identifier of
/// the organization.
pub open spec fn names_organization(item: Item, name: Seq<char>) -> bool {
    item.text("organization_name"@) == Some(name) && item.text("organization_id"@) is Some
}

/// Whether a record names the organization `name`.
pub open spec fn is_in_organization(item: Item, name: Seq<char>) -> bool {
    item.text("organization_name"@) == Some(name)
}

/// The identifier of the organization `name`, as the first record that
/// names the organization and has an identifier gives it.
pub open spec fn organization_id_in(items: Option<Vec<Item>>, name: Seq<char>) -> Option<
    Seq<char>,
> {
    match items {
        None => None,
        Some(list) => {
            let at = first_where(list@, |item: Item| names_organization(item, name));
            if at < list@.len() {
                list@[at].text("organization_id"@)
            } else {
                None
            }
        },
    }
}

/// Whether some record names the organization `name`.
pub open spec fn organization_in(items: Option<Vec<Item>>, name: Seq<char>) -> bool {
    match items {
        None => false,
        Some(list) => organization_among(list@, name),
    }
}

/// Whether one of `records` names the organization `name`.
pub open spec fn organization_among(records: Seq<Item>, name: Seq<char>) -> bool {
    exists|i: int| 0 <= i < records.len() && is_in_organization(#[trigger] records[i], name)
}

/// The identifier of the organization `organization_name` among all the
/// records of the store.
pub fn find_organization_id_by_name(items: &Option<Vec<Item>>, organization_name: &str) -> (r:
    Option<String>)
    ensures
        match r {
            Some(id) => organization_id_in(*items, organization_name@) == Some(id@),
            None => organization_id_in(*items, organization_name@) is None,
        },
{
    let list = match items {
        None => {
            return None;
        },
        Some(list) => list,
    };
    let name: String = organization_name.to_owned();
    let n: usize = list.len();
    let mut i: usize = 0;
    while i < n
        invariant
            n == list@.len(),
            i <= n,
            *items == Some(*list),
            name@ == organization_name@,
            forall|j: int|
                0 <= j < i ==> !names_organization(#[trigger] list@[j], organization_name@),
        decreases n - i,
    {
        let matches = match list[i].get_text("organization_name") {
            Some(text) => *text == name,
            None => false,
        };
        if matches {
            match list[i].get_text("organization_id") {
                Some(id) => {
                    proof {
                        assert(names_organization(list@[i as int], organization_name@));
                        lemma_first_where(
                            list@,
                            |item: Item| names_organization(item, organization_name@),
                            i as int,
                        );
                    }
                    return Some(id.clone());
                },
                None => {},
            }
        }
        assert(!names_organization(list@[i as int], organization_name@));
        i = i + 1;
    }
    proof {
        lemma_first_where(
            list@,
            |item: Item| names_organization(item, organization_name@),
            n as int,
        );
    }
    None
}

/// Whether some record of the store names the organization
/// `organization_name`.
pub fn organization_exists(items: &Option<Vec<Item>>, organization_name: &str) -> (r: bool)
    ensures
        r == organization_in(*items, organization_name@),
{
    let list = match items {
        None => {
            return false;
        },
        Some(list) => list,
    };
    let name: String = organization_name.to_owned();
    let n: usize = list.len();
    let mut i: usize = 0;
    while i < n
        invariant
            n == list@.len(),
            i <= n,
            *items == Some(*list),
            name@ == organization_name@,
            forall|j: int|
                0 <= j < i ==> !is_in_organization(#[trigger] list@[j], organization_name@),
        decreases n - i,
    {
        let matches = match list[i].get_text("organization_name") {
            Some(text) => *text == name,
            None => false,
        };
        if matches {
            assert(is_in_organization(list@[i as int], organization_name@));
            assert(organization_in(*items, organization_name@));
            return true;
        }
        i = i + 1;
    }
    false
}

/// Whether no record of the store names the organization
/// `organization_name` yet.
pub fn is_first_user_in_organization(items: &Option<Vec<Item>>, organization_name: &str) -> (r:
    bool)
    ensures
        r == !organization_in(*items, organization_name@),
{
    !organization_exists(items, organization_name)
}

/// The store of users, for those who have one to offer.
pub trait UserRepository {
    /// The user with the identifier `user_id`.
    fn get_user_by_id(&self, user_id: String) -> Result<User, RepositoryError>;

    /// The users of the organization `organization_id`.
    fn get_users_by_organization_id(&self, organization_id: String) -> Result<
        Vec<User>,
        RepositoryError,
    >;

    /// Writes a new user.
    fn create_user(&self, user: User) -> Result<User, RepositoryError>;

    /// Deletes a user.
    fn delete_user_by_id(&self, user_id: String, organization_id: String) -> Result<
        (),
        RepositoryError,
    >;

    /// Writes the changed fields of a user.
    fn update_user(&self, user: User) -> Result<User, RepositoryError>;

    /// The identifier of the organization with the name `organization_name`.
    fn find_organization_id_by_name(&self, organization_name: &str) -> Result<
        Option<String>,
        RepositoryError,
    >;

    /// Whether there is an organization with the name `organization_name`.
    fn organization_exists(&self, organization_name: &str) -> Result<bool, RepositoryError>;

    /// Whether the organization `organization_name` has no user yet.
    fn is_first_user_in_organization(&self, organization_name: &str) -> Result<
        bool,
        RepositoryError,
    >;
}

} // verus!
