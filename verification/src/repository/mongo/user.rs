//! The user repository: the pure half of each operation on the `users`
//! collection.
//!
//! The conversions between entity and stored record live here with exact
//! contracts; the rim performs the driver calls and hands their plain
//! results back in. Every read path substitutes the fixed redaction marker
//! for the stored password hash.

use vstd::prelude::*;

use crate::entity;
use crate::po;
use crate::repository::mongo::object_id::{
    spec_bytes_of_hex, spec_hex_of_bytes, spec_is_hex_oid, ObjectId,
};
use crate::repository::mongo::{MongoDB, MongodbError};

verus! {

/// The marker every read path substitutes for a stored password hash.
pub open spec fn spec_redacted() -> Seq<char> {
    "******"@
}

/// Binds the generic contract to the `users` collection.
#[derive(Clone)]
pub struct UserRepo {
    pub db: MongoDB,
}

impl UserRepo {
    pub fn new(db: MongoDB) -> (r: UserRepo)
        ensures
            r.db == db,
    {
        UserRepo { db }
    }
}

/// What a stored user record reads back as: the identifier rendered as
/// lowercase hexadecimal digits (empty when the record has none), the
/// username as stored, and the password hash always the redaction marker,
/// whatever the record holds.
pub open spec fn spec_user_from_record(rec: po::UserModel) -> entity::UserModel {
    entity::UserModel {
        id: match rec.id {
            Some(b) => spec_hex_of_bytes(b),
            None => Seq::empty(),
        },
        username: rec.username,
        passowrd_hash: spec_redacted(),
    }
}

/// Converts one stored record into the entity a read returns.
pub fn user_from_record(rec: &po::User) -> (r: entity::User)
    ensures
        r@ == spec_user_from_record(rec@),
{
    let oid = match &rec.id {
        Some(i) => i.to_hex(),
        None => String::new(),
    };
    entity::User {
        id: oid,
        username: rec.username.clone(),
        passowrd_hash: "******".to_owned(),
    }
}

/// What a single-record read returns for each outcome of the native find:
/// the converted record, or `DataNotFoundError` when nothing matched.
pub fn user_find_one_result(found: Option<po::User>) -> (r: Result<entity::User, MongodbError>)
    ensures
        r is Ok <==> found is Some,
        found matches Some(rec) ==> (r matches Ok(u) && u@ == spec_user_from_record(rec@)),
        found is None ==> r == Err::<entity::User, MongodbError>(MongodbError::DataNotFoundError),
{
    match found {
        Some(rec) => Ok(user_from_record(&rec)),
        None => Err(MongodbError::DataNotFoundError),
    }
}

/// The record a user serializes to on create: no identifier, since the
/// store assigns one, and the other fields as given.
pub open spec fn spec_user_record_for_create(u: entity::UserModel) -> po::UserModel {
    po::UserModel { id: None, username: u.username, passowrd_hash: u.passowrd_hash }
}

/// Serializes a user for insertion.
pub fn user_record_for_create(data: &entity::User) -> (r: po::User)
    ensures
        r@ == spec_user_record_for_create(data@),
{
    po::User {
        id: None,
        username: data.username.clone(),
        passowrd_hash: data.passowrd_hash.clone(),
    }
}

/// The record a user serializes to on update: the identifier decoded from
/// its hexadecimal rendering, the other fields as given.
pub open spec fn spec_user_record_for_update(u: entity::UserModel) -> po::UserModel {
    po::UserModel {
        id: Some(spec_bytes_of_hex(u.id)),
        username: u.username,
        passowrd_hash: u.passowrd_hash,
    }
}

/// Serializes a user for a wholesale replace; an identifier that is not
/// twenty-four hexadecimal digits is rejected.
pub fn user_record_for_update(data: &entity::User) -> (r: Result<po::User, MongodbError>)
    ensures
        r is Ok <==> spec_is_hex_oid(data.id@),
        r matches Ok(rec) ==> rec@ == spec_user_record_for_update(data@),
        !spec_is_hex_oid(data.id@) ==> r == Err::<po::User, MongodbError>(
            MongodbError::InvalidIdentifierError,
        ),
{
    match ObjectId::from_hex(data.id.as_str()) {
        Some(oid) => Ok(
            po::User {
                id: Some(oid),
                username: data.username.clone(),
                passowrd_hash: data.passowrd_hash.clone(),
            },
        ),
        None => Err(MongodbError::InvalidIdentifierError),
    }
}

/// A user found again right after create equals the input on every field
/// except the identifier, now the rendering of what the store assigned,
/// and the password hash, now the redaction marker.
pub proof fn lemma_user_round_trip(u: entity::UserModel, assigned: Seq<u8>)
    ensures
        ({
            let rec = spec_user_record_for_create(u);
            let stored = po::UserModel { id: Some(assigned), ..rec };
            let back = spec_user_from_record(stored);
            &&& back.username == u.username
            &&& back.id == spec_hex_of_bytes(assigned)
            &&& back.passowrd_hash == spec_redacted()
        }),
{
}

} // verus!
