//! Users, the encoding of their role sets, and their records in the store.

use crate::errors::{LambdaError, LambdaErrorView, ToLambdaError};
use crate::permissions::{bits_within, effective_bits, ordered_roles, Permissions, Role, RoleSet};
use crate::text::{
    chars_of, is_white_space, leading, lemma_leading, lemma_trailing, matches_at, trim_bounds,
    trimmed,
};
use vstd::prelude::*;
use vstd::string::{StrSliceExecFns, StringExecFns};

verus! {

/// The value of one attribute of a stored record, as far as it is read here:
/// a text, or a value of some other kind.
#[derive(Clone, Debug)]
pub enum AttributeValue {
    Text(String),
    Other,
}

/// One named attribute of a stored record.
#[derive(Clone, Debug)]
pub struct Attribute {
    pub name: String,
    pub value: AttributeValue,
}

/// A stored record: a flat list of named attributes, in which the last
/// attribute of a name is the one that counts.
#[derive(Clone, Debug)]
pub struct Item {
    pub attributes: Vec<Attribute>,
}

/// The text under `name` in `attributes`, if the last attribute of that name
/// is a text.
pub open spec fn text_in(attributes: Seq<Attribute>, name: Seq<char>) -> Option<Seq<char>>
    decreases attributes.len(),
{
    if attributes.len() == 0 {
        None
    } else if attributes.last().name@ == name {
        match attributes.last().value {
            AttributeValue::Text(s) => Some(s@),
            AttributeValue::Other => None,
        }
    } else {
        text_in(attributes.drop_last(), name)
    }
}

impl Item {
    /// The text under `name`, if the record has one.
    pub open spec fn text(&self, name: Seq<char>) -> Option<Seq<char>> {
        text_in(self.attributes@, name)
    }

    /// A record without attributes.
    pub fn new() -> (r: Item)
        ensures
            r.attributes@ == Seq::<Attribute>::empty(),
    {
        Item { attributes: Vec::new() }
    }

    /// Sets the attribute `name` to the text `value`.
    pub fn set_text(&mut self, name: String, value: String)
        ensures
            final(self).attributes@.len() == old(self).attributes@.len() + 1,
            final(self).text(name@) == Some(value@),
            forall|other: Seq<char>|
                other != name@ ==> final(self).text(other) == old(self).text(other),
    {
        let ghost before = self.attributes@;
        self.attributes.push(Attribute { name, value: AttributeValue::Text(value) });
        assert(self.attributes@.drop_last() =~= before);
    }

    /// The text under `name`, if the record has one.
    pub fn get_text(&self, name: &str) -> (r: Option<&String>)
        ensures
            match r {
                Some(s) => self.text(name@) == Some(s@),
                None => self.text(name@) is None,
            },
    {
        let wanted: String = name.to_owned();
        let mut i: usize = self.attributes.len();
        assert(self.attributes@.take(i as int) =~= self.attributes@);
        while i > 0
            invariant
                i <= self.attributes@.len(),
                wanted@ == name@,
                text_in(self.attributes@, name@) == text_in(
                    self.attributes@.take(i as int),
                    name@,
                ),
            decreases i,
        {
            let ghost prefix = self.attributes@.take(i as int);
            assert(prefix.last() == self.attributes@[i - 1]);
            assert(prefix.drop_last() =~= self.attributes@.take(i - 1));
            if self.attributes[i - 1].name == wanted {
                return match &self.attributes[i - 1].value {
                    AttributeValue::Text(s) => Some(s),
                    AttributeValue::Other => None,
                };
            }
            i = i - 1;
        }
        assert(self.attributes@.take(0).len() == 0);
        None
    }
}

/// The name under which a role is written.
pub open spec fn role_name(role: Role) -> Seq<char> {
    match role {
        Role::Admin => "Admin"@,
        Role::Reader => "Reader"@,
        Role::Writer => "Writer"@,
    }
}

/// The role that is written as `token`, if there is one.
pub open spec fn role_named(token: Seq<char>) -> Option<Role> {
    if token == "Admin"@ {
        Some(Role::Admin)
    } else if token == "Reader"@ {
        Some(Role::Reader)
    } else if token == "Writer"@ {
        Some(Role::Writer)
    } else {
        None
    }
}

/// The names of `roles`, joined by colons.
pub open spec fn join_names(roles: Seq<Role>) -> Seq<char>
    decreases roles.len(),
{
    if roles.len() == 0 {
        Seq::<char>::empty()
    } else if roles.len() == 1 {
        role_name(roles[0])
    } else {
        join_names(roles.drop_last()) + ":"@ + role_name(roles.last())
    }
}

/// How a set of roles is written in the store: the names of its roles, in
/// the order Admin, Reader, Writer, joined by colons.
pub open spec fn encode_roles(roles: Set<Role>) -> Seq<char> {
    join_names(ordered_roles(roles))
}

/// The set of roles that `s` stands for. `s` is cut at its colons, each
/// piece is trimmed and must be the name of a role. The error holds the
/// first piece that is not.
pub open spec fn decode_roles(s: Seq<char>) -> Result<Set<Role>, Seq<char>>
    decreases s.len(),
{
    let i = leading(s, |c: char| c != ':') as int;
    let token = trimmed(s.take(i));
    match role_named(token) {
        None => Err(token),
        Some(role) => if i >= s.len() {
            Ok(Set::<Role>::empty().insert(role))
        } else {
            match decode_roles(s.skip(i + 1)) {
                Ok(rest) => Ok(rest.insert(role)),
                Err(e) => Err(e),
            }
        },
    }
}

impl Role {
    /// The name under which this role is written.
    pub fn name(&self) -> (r: &'static str)
        ensures
            r@ == role_name(*self),
    {
        match self {
            Role::Admin => "Admin",
            Role::Reader => "Reader",
            Role::Writer => "Writer",
        }
    }

    /// The name under which this role is written, as an owned string.
    pub fn to_string(&self) -> (r: String)
        ensures
            r@ == role_name(*self),
    {
        self.name().to_owned()
    }

    /// The role that is written as `chars[from..to]`, if there is one.
    pub fn from_chars(chars: &Vec<char>, from: usize, to: usize) -> (r: Option<Role>)
        requires
            from <= to <= chars@.len(),
        ensures
            r == role_named(chars@.subrange(from as int, to as int)),
    {
        let ghost token = chars@.subrange(from as int, to as int);
        let admin = chars_of("Admin");
        let reader = chars_of("Reader");
        let writer = chars_of("Writer");
        let n: usize = to - from;
        if n == admin.len() && matches_at(chars, &admin, from) {
            assert(token == "Admin"@);
            Some(Role::Admin)
        } else if n == reader.len() && matches_at(chars, &reader, from) {
            assert(token == "Reader"@);
            Some(Role::Reader)
        } else if n == writer.len() && matches_at(chars, &writer, from) {
            assert(token == "Writer"@);
            Some(Role::Writer)
        } else {
            None
        }
    }

    /// The role that is written as `token`, if there is one.
    pub fn parse(token: &str) -> (r: Option<Role>)
        ensures
            r == role_named(token@),
    {
        let chars = chars_of(token);
        assert(chars@.subrange(0, chars@.len() as int) =~= token@);
        Role::from_chars(&chars, 0, chars.len())
    }
}

/// What went wrong when a stored set of roles or a stored user was read.
#[derive(Clone, Debug)]
pub enum ItemError {
    /// The attribute `id` is missing or no text.
    MissingId,
    /// The attribute `name` is missing or no text.
    MissingName,
    /// The attribute `email` is missing or no text.
    MissingEmail,
    /// The attribute `organization_id` is missing or no text.
    MissingOrganizationId,
    /// The attribute `organization_name` is missing or no text.
    MissingOrganizationName,
    /// The attribute `roles` is missing or no text.
    MissingRoles,
    /// A piece of the attribute `roles` is not the name of a role.
    UnknownRole(String),
}

/// An `ItemError` with its text as a sequence of characters.
pub enum ItemErrorView {
    MissingId,
    MissingName,
    MissingEmail,
    MissingOrganizationId,
    MissingOrganizationName,
    MissingRoles,
    UnknownRole(Seq<char>),
}

impl View for ItemError {
    type V = ItemErrorView;

    open spec fn view(&self) -> ItemErrorView {
        match self {
            ItemError::MissingId => ItemErrorView::MissingId,
            ItemError::MissingName => ItemErrorView::MissingName,
            ItemError::MissingEmail => ItemErrorView::MissingEmail,
            ItemError::MissingOrganizationId => ItemErrorView::MissingOrganizationId,
            ItemError::MissingOrganizationName => ItemErrorView::MissingOrganizationName,
            ItemError::MissingRoles => ItemErrorView::MissingRoles,
            ItemError::UnknownRole(token) => ItemErrorView::UnknownRole(token@),
        }
    }
}

/// The message of an `ItemError`.
pub open spec fn item_error_message(e: ItemErrorView) -> Seq<char> {
    match e {
        ItemErrorView::MissingId => "Missing or invalid 'id' attribute"@,
        ItemErrorView::MissingName => "Missing or invalid 'name' attribute"@,
        ItemErrorView::MissingEmail => "Missing or invalid 'email' attribute"@,
        ItemErrorView::MissingOrganizationId => "Missing or invalid 'organization_id' attribute"@,
        ItemErrorView::MissingOrganizationName =>
            "Missing or invalid 'organization_name' attribute"@,
        ItemErrorView::MissingRoles => "Missing or invalid 'roles' attribute"@,
        ItemErrorView::UnknownRole(token) => "Unknown role: "@ + token,
    }
}

impl ItemError {
    /// The message of this error.
    pub fn message(&self) -> (r: String)
        ensures
            r@ == item_error_message(self@),
    {
        match self {
            ItemError::MissingId => "Missing or invalid 'id' attribute".to_owned(),
            ItemError::MissingName => "Missing or invalid 'name' attribute".to_owned(),
            ItemError::MissingEmail => "Missing or invalid 'email' attribute".to_owned(),
            ItemError::MissingOrganizationId =>
                "Missing or invalid 'organization_id' attribute".to_owned(),
            ItemError::MissingOrganizationName =>
                "Missing or invalid 'organization_name' attribute".to_owned(),
            ItemError::MissingRoles => "Missing or invalid 'roles' attribute".to_owned(),
            ItemError::UnknownRole(token) => "Unknown role: ".to_owned().concat(token.as_str()),
        }
    }
}

impl ToLambdaError for ItemError {
    /// An internal error with the message of this error.
    fn to_lambda_error(self) -> (r: LambdaError)
        ensures
            r@ == LambdaErrorView::InternalError(item_error_message(self@)),
    {
        LambdaError::InternalError(self.message())
    }
}

/// Reads the set of roles written in `s` from index `start` on.
fn parse_roles_from(s: &str, chars: &Vec<char>, start: usize) -> (r: Result<RoleSet, String>)
    requires
        chars@ == s@,
        start <= chars@.len(),
    ensures
        match r {
            Ok(roles) => decode_roles(chars@.skip(start as int)) == Ok::<Set<Role>, Seq<char>>(
                roles@,
            ),
            Err(token) => decode_roles(chars@.skip(start as int)) == Err::<Set<Role>, Seq<char>>(
                token@,
            ),
        },
    decreases chars@.len() - start,
{
    let ghost rest = chars@.skip(start as int);
    let ghost not_colon = |c: char| c != ':';
    let total: usize = chars.len();
    let mut end: usize = start;
    while end < total && chars[end] != ':'
        invariant
            total == chars@.len(),
            start <= end <= total,
            forall|j: int| start <= j < end ==> chars@[j] != ':',
        decreases total - end,
    {
        end = end + 1;
    }
    proof {
        assert forall|j: int| 0 <= j < end - start implies not_colon(#[trigger] rest[j]) by {
            assert(rest[j] == chars@[start + j]);
        }
        lemma_leading(rest, not_colon, end - start);
        assert(rest.take(end - start) =~= chars@.subrange(start as int, end as int));
    }
    let (a, b) = trim_bounds(chars, start, end);
    match Role::from_chars(chars, a, b) {
        None => Err(s.substring_char(a, b).to_owned()),
        Some(role) => {
            if end >= total {
                let mut roles = RoleSet::new();
                roles.insert(role);
                Ok(roles)
            } else {
                assert(rest.skip(end - start + 1) =~= chars@.skip(end + 1));
                match parse_roles_from(s, chars, end + 1) {
                    Ok(mut roles) => {
                        roles.insert(role);
                        Ok(roles)
                    },
                    Err(token) => Err(token),
                }
            }
        },
    }
}

/// Reads a set of roles as it is written in the store.
pub fn parse_roles(s: &str) -> (r: Result<RoleSet, ItemError>)
    ensures
        match r {
            Ok(roles) => decode_roles(s@) == Ok::<Set<Role>, Seq<char>>(roles@),
            Err(e) => e@ is UnknownRole && decode_roles(s@) == Err::<Set<Role>, Seq<char>>(
                e@->UnknownRole_0,
            ),
        },
{
    let chars = chars_of(s);
    assert(chars@.skip(0) =~= s@);
    match parse_roles_from(s, &chars, 0) {
        Ok(roles) => Ok(roles),
        Err(token) => Err(ItemError::UnknownRole(token)),
    }
}

/// A user of the directory.
#[derive(Debug)]
pub struct User {
    pub id: String,
    pub name: String,
    pub email: String,
    pub organization_id: String,
    pub organization_name: String,
    pub roles: RoleSet,
}

/// A user, with texts as sequences of characters and the roles as a set.
pub struct UserView {
    pub id: Seq<char>,
    pub name: Seq<char>,
    pub email: Seq<char>,
    pub organization_id: Seq<char>,
    pub organization_name: Seq<char>,
    pub roles: Set<Role>,
}

impl View for User {
    type V = UserView;

    open spec fn view(&self) -> UserView {
        UserView {
            id: self.id@,
            name: self.name@,
            email: self.email@,
            organization_id: self.organization_id@,
            organization_name: self.organization_name@,
            roles: self.roles@,
        }
    }
}

impl Clone for User {
    fn clone(&self) -> (r: User)
        ensures
            r@ == self@,
    {
        User {
            id: self.id.clone(),
            name: self.name.clone(),
            email: self.email.clone(),
            organization_id: self.organization_id.clone(),
            organization_name: self.organization_name.clone(),
            roles: self.roles,
        }
    }
}

/// The user that a stored record stands for, or what is wrong with the
/// record. The attributes are read in the order id, name, email,
/// organization_id, organization_name, roles, and the first one that is
/// missing or no text decides the error.
pub open spec fn user_of_item(item: Item) -> Result<UserView, ItemErrorView> {
    if item.text("id"@) is None {
        Err(ItemErrorView::MissingId)
    } else if item.text("name"@) is None {
        Err(ItemErrorView::MissingName)
    } else if item.text("email"@) is None {
        Err(ItemErrorView::MissingEmail)
    } else if item.text("organization_id"@) is None {
        Err(ItemErrorView::MissingOrganizationId)
    } else if item.text("organization_name"@) is None {
        Err(ItemErrorView::MissingOrganizationName)
    } else if item.text("roles"@) is None {
        Err(ItemErrorView::MissingRoles)
    } else {
        match decode_roles(item.text("roles"@)->0) {
            Err(token) => Err(ItemErrorView::UnknownRole(token)),
            Ok(roles) => Ok(
                UserView {
                    id: item.text("id"@)->0,
                    name: item.text("name"@)->0,
                    email: item.text("email"@)->0,
                    organization_id: item.text("organization_id"@)->0,
                    organization_name: item.text("organization_name"@)->0,
                    roles,
                },
            ),
        }
    }
}

impl User {
    /// A user with the given fields.
    pub fn new(
        id: String,
        name: String,
        email: String,
        organization_id: String,
        organization_name: String,
        roles: RoleSet,
    ) -> (r: User)
        ensures
            r@ == (UserView {
                id: id@,
                name: name@,
                email: email@,
                organization_id: organization_id@,
                organization_name: organization_name@,
                roles: roles@,
            }),
    {
        User { id, name, email, organization_id, organization_name, roles }
    }

    /// The union of the permissions of the user's roles; empty without roles.
    pub fn permissions(&self) -> (r: Permissions)
        ensures
            r@ == effective_bits(self@.roles),
    {
        self.roles.permissions()
    }

    /// Whether the user's roles grant every permission in `permission`.
    pub fn has_permission(&self, permission: Permissions) -> (r: bool)
        ensures
            r == bits_within(permission@, effective_bits(self@.roles)),
    {
        self.permissions().contains(permission)
    }

    /// Gives the user `role`; nothing changes if the user has it already.
    pub fn add_role(&mut self, role: Role)
        ensures
            final(self)@ == (UserView { roles: old(self)@.roles.insert(role), ..old(self)@ }),
    {
        if !self.has_role(role) {
            self.roles.insert(role);
        }
        assert(self.roles@ =~= old(self).roles@.insert(role));
    }

    /// Gives the user every role in `roles`.
    pub fn set_from_roles(&mut self, roles: Vec<Role>)
        ensures
            final(self)@ == (UserView {
                roles: old(self)@.roles.union(roles@.to_set()),
                ..old(self)@
            }),
    {
        let n: usize = roles.len();
        let mut i: usize = 0;
        assert(roles@.take(0).to_set() =~= Set::<Role>::empty());
        assert(old(self)@.roles.union(Set::<Role>::empty()) =~= old(self)@.roles);
        while i < n
            invariant
                n == roles@.len(),
                i <= n,
                self@ == (UserView {
                    roles: old(self)@.roles.union(roles@.take(i as int).to_set()),
                    ..old(self)@
                }),
            decreases n - i,
        {
            let ghost before = roles@.take(i as int).to_set();
            self.add_role(roles[i]);
            proof {
                let next = roles@.take(i + 1);
                assert(next.drop_last() =~= roles@.take(i as int));
                assert(next.last() == roles@[i as int]);
                assert(next =~= roles@.take(i as int).push(roles@[i as int]));
                assert forall|r: Role| next.to_set().contains(r) == before.insert(
                    roles@[i as int],
                ).contains(r) by {
                    if next.contains(r) {
                        let k = choose|k: int| 0 <= k < next.len() && next[k] == r;
                        if k < i {
                            assert(roles@.take(i as int)[k] == r);
                        }
                    }
                    if before.contains(r) {
                        let k = choose|k: int|
                            0 <= k < roles@.take(i as int).len() && roles@.take(i as int)[k] == r;
                        assert(next[k] == r);
                    }
                    if r == roles@[i as int] {
                        assert(next[i as int] == r);
                    }
                }
                assert(next.to_set() =~= before.insert(roles@[i as int]));
                assert(old(self)@.roles.union(before).insert(roles@[i as int]) =~= old(
                    self,
                )@.roles.union(next.to_set()));
            }
            i = i + 1;
        }
        assert(roles@.take(n as int) =~= roles@);
    }

    /// Takes `role` from the user; nothing changes if the user lacks it.
    pub fn remove_role(&mut self, role: Role)
        ensures
            final(self)@ == (UserView { roles: old(self)@.roles.remove(role), ..old(self)@ }),
    {
        self.roles.remove(role);
    }

    /// Whether the user has `role`.
    pub fn has_role(&self, role: Role) -> (r: bool)
        ensures
            r == self@.roles.contains(role),
    {
        self.roles.contains(role)
    }

    /// The user's roles, in the order Admin, Reader, Writer.
    pub fn roles(&self) -> (r: Vec<Role>)
        ensures
            r@ == ordered_roles(self@.roles),
    {
        self.roles.to_vec()
    }

    /// The user's roles as they are written in the store.
    pub fn join_roles(&self) -> (r: String)
        ensures
            r@ == encode_roles(self@.roles),
    {
        let roles = self.roles.to_vec();
        let n: usize = roles.len();
        let mut out = String::new();
        let mut i: usize = 0;
        assert(roles@.take(0) =~= Seq::<Role>::empty());
        while i < n
            invariant
                n == roles@.len(),
                i <= n,
                out@ == join_names(roles@.take(i as int)),
            decreases n - i,
        {
            proof {
                let next = roles@.take(i + 1);
                assert(next.drop_last() =~= roles@.take(i as int));
                assert(next.last() == roles@[i as int]);
                assert(next[0] == roles@[0]);
            }
            if i > 0 {
                out.append(":");
            }
            out.append(roles[i].name());
            assert(out@ =~= join_names(roles@.take(i + 1)));
            i = i + 1;
        }
        assert(roles@.take(n as int) =~= roles@);
        out
    }

    /// Reads a user from a stored record.
    pub fn from_item(item: &Item) -> (r: Result<User, ItemError>)
        ensures
            match r {
                Ok(user) => user_of_item(*item) == Ok::<UserView, ItemErrorView>(user@),
                Err(e) => user_of_item(*item) == Err::<UserView, ItemErrorView>(e@),
            },
    {
        let id = match item.get_text("id") {
            Some(s) => s.clone(),
            None => {
                return Err(ItemError::MissingId);
            },
        };
        let name = match item.get_text("name") {
            Some(s) => s.clone(),
            None => {
                return Err(ItemError::MissingName);
            },
        };
        let email = match item.get_text("email") {
            Some(s) => s.clone(),
            None => {
                return Err(ItemError::MissingEmail);
            },
        };
        let organization_id = match item.get_text("organization_id") {
            Some(s) => s.clone(),
            None => {
                return Err(ItemError::MissingOrganizationId);
            },
        };
        let organization_name = match item.get_text("organization_name") {
            Some(s) => s.clone(),
            None => {
                return Err(ItemError::MissingOrganizationName);
            },
        };
        let roles_text = match item.get_text("roles") {
            Some(s) => s,
            None => {
                return Err(ItemError::MissingRoles);
            },
        };
        let roles = match parse_roles(roles_text.as_str()) {
            Ok(roles) => roles,
            Err(e) => {
                return Err(e);
            },
        };
        Ok(User { id, name, email, organization_id, organization_name, roles })
    }
}

/// Whether a text holds no colon and neither starts nor ends with
/// whitespace.
pub open spec fn is_plain_token(t: Seq<char>) -> bool {
    &&& forall|i: int| 0 <= i < t.len() ==> #[trigger] t[i] != ':'
    &&& t.len() > 0 ==> !is_white_space(t[0]) && !is_white_space(t.last())
}

/// Trimming leaves a plain token as it is.
pub proof fn lemma_plain_token_trimmed(t: Seq<char>)
    requires
        is_plain_token(t),
    ensures
        trimmed(t) == t,
{
    let ws = |c: char| is_white_space(c);
    lemma_leading(t, ws, 0);
    assert(t.skip(0) =~= t);
    lemma_trailing(t, ws, t.len() as int);
    assert(t.take(t.len() as int) =~= t);
}

/// A plain token alone stands for the set of the one role that it names.
pub proof fn lemma_decode_last(t: Seq<char>)
    requires
        is_plain_token(t),
    ensures
        decode_roles(t) == (match role_named(t) {
            None => Err::<Set<Role>, Seq<char>>(t),
            Some(role) => Ok(Set::<Role>::empty().insert(role)),
        }),
{
    let not_colon = |c: char| c != ':';
    lemma_leading(t, not_colon, t.len() as int);
    assert(t.take(t.len() as int) =~= t);
    lemma_plain_token_trimmed(t);
}

/// A plain token, a colon and a rest stand for what the rest stands for,
/// with the role that the token names.
pub proof fn lemma_decode_more(t: Seq<char>, rest: Seq<char>)
    requires
        is_plain_token(t),
    ensures
        decode_roles(t + seq![':'] + rest) == (match role_named(t) {
            None => Err::<Set<Role>, Seq<char>>(t),
            Some(role) => match decode_roles(rest) {
                Ok(roles) => Ok(roles.insert(role)),
                Err(e) => Err(e),
            },
        }),
{
    let s = t + seq![':'] + rest;
    let not_colon = |c: char| c != ':';
    assert forall|j: int| 0 <= j < t.len() implies not_colon(#[trigger] s[j]) by {
        assert(s[j] == t[j]);
    }
    assert(s[t.len() as int] == ':');
    lemma_leading(s, not_colon, t.len() as int);
    assert(s.take(t.len() as int) =~= t);
    assert(s.skip(t.len() as int + 1) =~= rest);
    lemma_plain_token_trimmed(t);
}

/// The name of a role is a plain token that names the role.
pub proof fn lemma_role_names(role: Role)
    ensures
        is_plain_token(role_name(role)),
        role_named(role_name(role)) == Some(role),
{
    reveal_strlit("Admin");
    reveal_strlit("Reader");
    reveal_strlit("Writer");
    assert("Admin"@ != "Reader"@) by {
        assert("Admin"@.len() != "Reader"@.len());
    }
    assert("Admin"@ != "Writer"@) by {
        assert("Admin"@.len() != "Writer"@.len());
    }
    assert("Reader"@ != "Writer"@) by {
        assert("Reader"@[0] != "Writer"@[0]);
    }
}

/// A set of roles that is not empty is read back from the way it is
/// written.
pub proof fn lemma_roles_round_trip(roles: Set<Role>)
    requires
        roles != Set::<Role>::empty(),
    ensures
        decode_roles(encode_roles(roles)) == Ok::<Set<Role>, Seq<char>>(roles),
{
    reveal_strlit(":");
    assert(":"@ =~= seq![':']);
    let a = role_name(Role::Admin);
    let r = role_name(Role::Reader);
    let w = role_name(Role::Writer);
    lemma_role_names(Role::Admin);
    lemma_role_names(Role::Reader);
    lemma_role_names(Role::Writer);
    let listed = ordered_roles(roles);
    let e = Set::<Role>::empty();
    let has_a = roles.contains(Role::Admin);
    let has_r = roles.contains(Role::Reader);
    let has_w = roles.contains(Role::Writer);
    if !has_a && !has_r && !has_w {
        assert forall|role: Role| !roles.contains(role) by {
            match role {
                Role::Admin => {},
                Role::Reader => {},
                Role::Writer => {},
            }
        }
        assert(roles =~= e);
    }
    assert forall|role: Role|
        roles.contains(role) == (role == Role::Admin && has_a || role == Role::Reader && has_r
            || role == Role::Writer && has_w) by {
        match role {
            Role::Admin => {},
            Role::Reader => {},
            Role::Writer => {},
        }
    }
    if has_a && has_r && has_w {
        assert(listed =~= seq![Role::Admin, Role::Reader, Role::Writer]);
        let two = listed.drop_last();
        let one = two.drop_last();
        assert(two =~= seq![Role::Admin, Role::Reader]);
        assert(one =~= seq![Role::Admin]);
        assert(join_names(one) == a);
        assert(join_names(two) == join_names(one) + ":"@ + r);
        assert(join_names(listed) == join_names(two) + ":"@ + w);
        assert(join_names(listed) =~= a + seq![':'] + (r + seq![':'] + w));
        lemma_decode_last(w);
        lemma_decode_more(r, w);
        lemma_decode_more(a, r + seq![':'] + w);
        assert(e.insert(Role::Writer).insert(Role::Reader).insert(Role::Admin) =~= roles);
    } else if has_a && has_r {
        assert(listed =~= seq![Role::Admin, Role::Reader]);
        let one = listed.drop_last();
        assert(one =~= seq![Role::Admin]);
        assert(join_names(one) == a);
        assert(join_names(listed) == join_names(one) + ":"@ + r);
        assert(join_names(listed) =~= a + seq![':'] + r);
        lemma_decode_last(r);
        lemma_decode_more(a, r);
        assert(e.insert(Role::Reader).insert(Role::Admin) =~= roles);
    } else if has_a && has_w {
        assert(listed =~= seq![Role::Admin, Role::Writer]);
        let one = listed.drop_last();
        assert(one =~= seq![Role::Admin]);
        assert(join_names(one) == a);
        assert(join_names(listed) == join_names(one) + ":"@ + w);
        assert(join_names(listed) =~= a + seq![':'] + w);
        lemma_decode_last(w);
        lemma_decode_more(a, w);
        assert(e.insert(Role::Writer).insert(Role::Admin) =~= roles);
    } else if has_r && has_w {
        assert(listed =~= seq![Role::Reader, Role::Writer]);
        let one = listed.drop_last();
        assert(one =~= seq![Role::Reader]);
        assert(join_names(one) == r);
        assert(join_names(listed) == join_names(one) + ":"@ + w);
        assert(join_names(listed) =~= r + seq![':'] + w);
        lemma_decode_last(w);
        lemma_decode_more(r, w);
        assert(e.insert(Role::Writer).insert(Role::Reader) =~= roles);
    } else if has_a {
        assert(listed =~= seq![Role::Admin]);
        lemma_decode_last(a);
        assert(e.insert(Role::Admin) =~= roles);
    } else if has_r {
        assert(listed =~= seq![Role::Reader]);
        lemma_decode_last(r);
        assert(e.insert(Role::Reader) =~= roles);
    } else {
        assert(listed =~= seq![Role::Writer]);
        lemma_decode_last(w);
        assert(e.insert(Role::Writer) =~= roles);
    }
}

/// The pieces into which the colons cut a text.
pub open spec fn pieces(s: Seq<char>) -> Seq<Seq<char>>
    decreases s.len(),
{
    let i = leading(s, |c: char| c != ':') as int;
    if i >= s.len() {
        seq![s.take(i)]
    } else {
        seq![s.take(i)] + pieces(s.skip(i + 1))
    }
}

/// Whether a piece, trimmed, is the name of a role.
pub open spec fn names_role(piece: Seq<char>) -> bool {
    role_named(trimmed(piece)) is Some
}

/// A text stands for a set of roles exactly if each of its pieces names a
/// role: one piece that is not the name of a role makes the whole text
/// fail.
pub proof fn lemma_unknown_role_fails(s: Seq<char>)
    ensures
        decode_roles(s) is Ok <==> (forall|k: int|
            0 <= k < pieces(s).len() ==> names_role(#[trigger] pieces(s)[k])),
    decreases s.len(),
{
    let i = leading(s, |c: char| c != ':') as int;
    let head = s.take(i);
    assert(pieces(s)[0] == head);
    if i < s.len() {
        let rest = s.skip(i + 1);
        lemma_unknown_role_fails(rest);
        let tail = pieces(rest);
        assert(pieces(s) =~= seq![head] + tail);
        if decode_roles(s) is Ok {
            assert forall|k: int| 0 <= k < pieces(s).len() implies names_role(
                #[trigger] pieces(s)[k],
            ) by {
                if k > 0 {
                    assert(pieces(s)[k] == tail[k - 1]);
                }
            }
        } else if names_role(head) {
            let k = choose|k: int| 0 <= k < tail.len() && !names_role(#[trigger] tail[k]);
            assert(pieces(s)[k + 1] == tail[k]);
        }
    }
}

} // verus!
