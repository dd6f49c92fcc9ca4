//! Accounts as they are stored, and the bodies of the requests that create
//! and change them.
//!
//! Identifiers and timestamps are held as plain values: an identifier as the
//! twelve bytes of a BSON object id, a timestamp as milliseconds since the
//! Unix epoch.

use vstd::prelude::*;

verus! {

/// A named permission.
#[derive(Clone, Debug, PartialEq, Eq)]
pub struct Permission {
    pub name: String,
}

/// Body of a registration request. The password is in plain text and lives
/// only as long as the request.
#[derive(Debug)]
pub struct CreateUserSchema {
    pub first_name: String,
    pub last_name: String,
    pub username: String,
    pub email: String,
    pub password: String,
}

/// Body of a request that renames an account's holder.
#[derive(Debug)]
pub struct UpdateUserSchema {
    pub first_name: String,
    pub last_name: String,
}

/// An account as the store holds it. `password` is the encoded hash, never the
/// plain text. `_id` is `None` until the store has assigned one.
#[derive(Clone, Debug, PartialEq, Eq)]
pub struct UserModel {
    pub _id: Option<[u8; 12]>,
    pub first_name: String,
    pub last_name: String,
    pub username: String,
    pub email: String,
    pub password: String,
    pub created_at: Option<i64>,
    pub updated_at: Option<i64>,
}

/// An account with an identity of its own, made before it reaches the store.
#[derive(Clone, Debug, PartialEq, Eq)]
pub struct UserEntity {
    pub _id: Option<[u8; 12]>,
    pub first_name: String,
    pub last_name: String,
    pub username: String,
    pub email: String,
    pub password: String,
    pub created_at: Option<i64>,
    pub updated_at: Option<i64>,
}

/// The mathematical content of an account.
pub struct AccountView {
    pub id: Option<[u8; 12]>,
    pub first_name: Seq<char>,
    pub last_name: Seq<char>,
    pub username: Seq<char>,
    pub email: Seq<char>,
    pub password: Seq<char>,
    pub created_at: Option<i64>,
    pub updated_at: Option<i64>,
}

impl View for UserModel {
    type V = AccountView;

    open spec fn view(&self) -> AccountView {
        AccountView {
            id: self._id,
            first_name: self.first_name@,
            last_name: self.last_name@,
            username: self.username@,
            email: self.email@,
            password: self.password@,
            created_at: self.created_at,
            updated_at: self.updated_at,
        }
    }
}

impl View for UserEntity {
    type V = AccountView;

    open spec fn view(&self) -> AccountView {
        AccountView {
            id: self._id,
            first_name: self.first_name@,
            last_name: self.last_name@,
            username: self.username@,
            email: self.email@,
            password: self.password@,
            created_at: self.created_at,
            updated_at: self.updated_at,
        }
    }
}

/// The current instant from `bson::DateTime::now`, in milliseconds since the
/// Unix epoch. Nothing is claimed of it.
#[verifier::external_body]
pub(crate) fn bson_now_millis() -> (now: i64) {
    bson::DateTime::now().timestamp_millis()
}

/// The bytes of a new identifier from `bson::oid::ObjectId::new`. Nothing is
/// claimed of them.
#[verifier::external_body]
fn fresh_object_id() -> (id: [u8; 12]) {
    bson::oid::ObjectId::new().bytes()
}

/// The account that a registration creates: the fields of the request, the
/// encoded hash in place of the password, no identifier yet, and `now_millis`
/// as the instant of both creation and last change.
pub open spec fn new_account(
    body: CreateUserSchema,
    password_hash: Seq<char>,
    now_millis: i64,
) -> AccountView {
    AccountView {
        id: None,
        first_name: body.first_name@,
        last_name: body.last_name@,
        username: body.username@,
        email: body.email@,
        password: password_hash,
        created_at: Some(now_millis),
        updated_at: Some(now_millis),
    }
}

impl UserModel {
    /// The account that a registration creates.
    pub fn from_schema(body: &CreateUserSchema, password_hash: String, now_millis: i64) -> (account:
        UserModel)
        ensures
            account@ == new_account(*body, password_hash@, now_millis),
    {
        UserModel {
            _id: None,
            first_name: body.first_name.clone(),
            last_name: body.last_name.clone(),
            username: body.username.clone(),
            email: body.email.clone(),
            password: password_hash,
            created_at: Some(now_millis),
            updated_at: Some(now_millis),
        }
    }
}

impl UserEntity {
    /// An account with a new identifier, created and last changed now.
    pub fn new(
        first_name: String,
        last_name: String,
        username: String,
        email: String,
        password: String,
    ) -> (entity: UserEntity)
        ensures
            entity.first_name@ == first_name@,
            entity.last_name@ == last_name@,
            entity.username@ == username@,
            entity.email@ == email@,
            entity.password@ == password@,
            entity._id is Some,
            entity.created_at is Some,
            entity.updated_at == entity.created_at,
    {
        let now = bson_now_millis();
        UserEntity {
            _id: Some(fresh_object_id()),
            first_name,
            last_name,
            username,
            email,
            password,
            created_at: Some(now),
            updated_at: Some(now),
        }
    }
}

} // verus!
