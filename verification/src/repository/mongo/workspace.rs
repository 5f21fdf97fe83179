//! The workspace repository: the pure half of each operation on the
//! `workspaces` collection.
//!
//! On write, the nested creator is flattened to a bare identifier
//! reference; on read it is reconstructed as a partial user whose
//! identifier alone is populated, with the sensitive field redacted.

use vstd::prelude::*;

use crate::entity;
use crate::po;
use crate::repository::mongo::object_id::{
    spec_bytes_of_hex, spec_hex_of_bytes, spec_is_hex_oid, ObjectId,
};
use crate::repository::mongo::user::spec_redacted;
use crate::repository::mongo::{MongoDB, MongodbError};

verus! {

/// Binds the generic contract to the `workspaces` collection.
#[derive(Clone)]
pub struct WorkspaceRepo {
    pub db: MongoDB,
}

impl WorkspaceRepo {
    pub fn new(db: MongoDB) -> (r: WorkspaceRepo)
        ensures
            r.db == db,
    {
        WorkspaceRepo { db }
    }
}

/// What a stored workspace record reads back as: the identifier rendered
/// as lowercase hexadecimal digits (empty when the record has none), and
/// the creator reconstructed as a partial user: identifier populated,
/// username empty, password hash always the redaction marker.
pub open spec fn spec_workspace_from_record(rec: po::WorkspaceModel) -> entity::WorkspaceModel {
    entity::WorkspaceModel {
        id: match rec.id {
            Some(b) => spec_hex_of_bytes(b),
            None => Seq::empty(),
        },
        name: rec.name,
        description: rec.description,
        creator: entity::UserModel {
            id: spec_hex_of_bytes(rec.creator),
            username: Seq::empty(),
            passowrd_hash: spec_redacted(),
        },
        created_at: rec.created_at,
        updated_at: rec.updated_at,
    }
}

/// Converts one stored record into the entity a read returns.
pub fn workspace_from_record(rec: &po::Workspace) -> (r: entity::Workspace)
    ensures
        r@ == spec_workspace_from_record(rec@),
{
    let oid = match &rec.id {
        Some(i) => i.to_hex(),
        None => String::new(),
    };
    entity::Workspace {
        id: oid,
        name: rec.name.clone(),
        description: rec.description.clone(),
        creator: entity::User {
            id: rec.creator.to_hex(),
            username: String::new(),
            passowrd_hash: "******".to_owned(),
        },
        created_at: rec.created_at,
        updated_at: rec.updated_at,
    }
}

/// What a single-record read returns for each outcome of the native find:
/// the converted record, or `DataNotFoundError` when nothing matched.
pub fn workspace_find_one_result(found: Option<po::Workspace>) -> (r: Result<
    entity::Workspace,
    MongodbError,
>)
    ensures
        r is Ok <==> found is Some,
        found matches Some(rec) ==> (r matches Ok(w) && w@ == spec_workspace_from_record(rec@)),
        found is None ==> r == Err::<entity::Workspace, MongodbError>(
            MongodbError::DataNotFoundError,
        ),
{
    match found {
        Some(rec) => Ok(workspace_from_record(&rec)),
        None => Err(MongodbError::DataNotFoundError),
    }
}

/// The record a workspace serializes to on create: no identifier, since
/// the store assigns one, and the creator flattened to its decoded
/// identifier.
pub open spec fn spec_workspace_record_for_create(w: entity::WorkspaceModel) -> po::WorkspaceModel {
    po::WorkspaceModel {
        id: None,
        name: w.name,
        description: w.description,
        creator: spec_bytes_of_hex(w.creator.id),
        created_at: w.created_at,
        updated_at: w.updated_at,
    }
}

/// Serializes a workspace for insertion; a creator identifier that is not
/// twenty-four hexadecimal digits is rejected.
pub fn workspace_record_for_create(data: &entity::Workspace) -> (r: Result<
    po::Workspace,
    MongodbError,
>)
    ensures
        r is Ok <==> spec_is_hex_oid(data.creator.id@),
        r matches Ok(rec) ==> rec@ == spec_workspace_record_for_create(data@),
        !spec_is_hex_oid(data.creator.id@) ==> r == Err::<po::Workspace, MongodbError>(
            MongodbError::InvalidIdentifierError,
        ),
{
    match ObjectId::from_hex(data.creator.id.as_str()) {
        Some(creator_oid) => Ok(
            po::Workspace {
                id: None,
                name: data.name.clone(),
                description: data.description.clone(),
                creator: creator_oid,
                created_at: data.created_at,
                updated_at: data.updated_at,
            },
        ),
        None => Err(MongodbError::InvalidIdentifierError),
    }
}

/// The record a workspace serializes to on update: both identifiers
/// decoded from their hexadecimal renderings.
pub open spec fn spec_workspace_record_for_update(w: entity::WorkspaceModel) -> po::WorkspaceModel {
    po::WorkspaceModel {
        id: Some(spec_bytes_of_hex(w.id)),
        name: w.name,
        description: w.description,
        creator: spec_bytes_of_hex(w.creator.id),
        created_at: w.created_at,
        updated_at: w.updated_at,
    }
}

/// Serializes a workspace for a wholesale replace; an own or creator
/// identifier that is not twenty-four hexadecimal digits is rejected.
pub fn workspace_record_for_update(data: &entity::Workspace) -> (r: Result<
    po::Workspace,
    MongodbError,
>)
    ensures
        r is Ok <==> spec_is_hex_oid(data.id@) && spec_is_hex_oid(data.creator.id@),
        r matches Ok(rec) ==> rec@ == spec_workspace_record_for_update(data@),
        r is Err ==> r == Err::<po::Workspace, MongodbError>(MongodbError::InvalidIdentifierError),
{
    let oid = match ObjectId::from_hex(data.id.as_str()) {
        Some(i) => i,
        None => {
            return Err(MongodbError::InvalidIdentifierError);
        },
    };
    match ObjectId::from_hex(data.creator.id.as_str()) {
        Some(creator_oid) => Ok(
            po::Workspace {
                id: Some(oid),
                name: data.name.clone(),
                description: data.description.clone(),
                creator: creator_oid,
                created_at: data.created_at,
                updated_at: data.updated_at,
            },
        ),
        None => Err(MongodbError::InvalidIdentifierError),
    }
}

/// A workspace found again right after create equals the input on the
/// name, description and both timestamps; its identifier is the rendering
/// of what the store assigned; its creator comes back as a partial user
/// whose identifier is the input creator's (given in its canonical
/// lowercase rendering), with the username empty and the password hash
/// redacted.
pub proof fn lemma_workspace_round_trip(w: entity::WorkspaceModel, assigned: Seq<u8>)
    requires
        w.creator.id == spec_hex_of_bytes(spec_bytes_of_hex(w.creator.id)),
    ensures
        ({
            let rec = spec_workspace_record_for_create(w);
            let stored = po::WorkspaceModel { id: Some(assigned), ..rec };
            let back = spec_workspace_from_record(stored);
            &&& back.name == w.name
            &&& back.description == w.description
            &&& back.created_at == w.created_at
            &&& back.updated_at == w.updated_at
            &&& back.id == spec_hex_of_bytes(assigned)
            &&& back.creator.id == w.creator.id
            &&& back.creator.username == Seq::<char>::empty()
            &&& back.creator.passowrd_hash == spec_redacted()
        }),
{
}

} // verus!
