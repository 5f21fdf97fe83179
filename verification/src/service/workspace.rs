//! The workspace service: what each operation decides and computes, from
//! plain values to plain values.
//!
//! The service's operations are single request/response round trips
//! against the repository; the pieces that need no storage engine — the
//! entity a create inserts, the by-identifier condition every lookup uses,
//! how an update rewrites a workspace — live here with exact contracts.

use vstd::prelude::*;

use crate::entity::{User, UserModel, Workspace, WorkspaceModel};
use crate::repository::condition::{
    Condition, ConditionModel, ConditionValue, NodeModel, Operate, ValueModel,
};
use crate::repository::mongo::object_id::{spec_bytes_of_hex, spec_is_hex_oid, ObjectId};
use crate::repository::mongo::workspace::WorkspaceRepo;
use crate::repository::mongo::MongodbError;

verus! {

/// Drives workspace use cases against the workspace repository.
#[derive(Clone)]
pub struct WorkspaceService {
    pub repo: WorkspaceRepo,
}

impl WorkspaceService {
    pub fn new(repo: WorkspaceRepo) -> (r: WorkspaceService)
        ensures
            r.repo == repo,
    {
        WorkspaceService { repo }
    }

    /// The entity a create inserts: the given fields, an empty identifier
    /// for the store to fill, a creator carrying nothing but its
    /// identifier, and both timestamps set to the request instant.
    pub fn workspace_to_create(name: String, description: String, creator: String, now: i64) -> (r:
        Workspace)
        ensures
            r@ == (WorkspaceModel {
                id: Seq::empty(),
                name: name@,
                description: description@,
                creator: UserModel {
                    id: creator@,
                    username: Seq::empty(),
                    passowrd_hash: Seq::empty(),
                },
                created_at: now,
                updated_at: now,
            }),
    {
        Workspace {
            id: String::new(),
            name,
            description,
            creator: User { id: creator, username: String::new(), passowrd_hash: String::new() },
            created_at: now,
            updated_at: now,
        }
    }

    /// The condition every by-identifier operation uses: the `_id` field
    /// equal to the decoded identifier. An identifier that is not
    /// twenty-four hexadecimal digits is rejected.
    pub fn by_id_condition(id: &str) -> (r: Result<Condition, MongodbError>)
        ensures
            r is Ok <==> spec_is_hex_oid(id@),
            r matches Ok(c) ==> c@ == (ConditionModel::Single(
                NodeModel {
                    field: "_id"@,
                    operate: Operate::Eq,
                    value: ValueModel::Oid(spec_bytes_of_hex(id@)),
                },
            )),
            !spec_is_hex_oid(id@) ==> r == Err::<Condition, MongodbError>(
                MongodbError::InvalidIdentifierError,
            ),
    {
        match ObjectId::from_hex(id) {
            Some(oid) => Ok(
                Condition::single(
                    "_id".to_owned(),
                    Operate::Eq,
                    ConditionValue::ObjectIdValue(oid),
                ),
            ),
            None => Err(MongodbError::InvalidIdentifierError),
        }
    }

    /// How an update rewrites the workspace it read: the new name and
    /// description, a fresh update instant, and everything else kept —
    /// including the creation instant. The rewrite starts from whatever
    /// the read returned, so two concurrent updates of one record each
    /// rewrite the whole record and the later write wins.
    pub fn apply_update(workspace: Workspace, name: String, description: String, now: i64) -> (r:
        Workspace)
        ensures
            r@ == (WorkspaceModel {
                name: name@,
                description: description@,
                updated_at: now,
                ..workspace@
            }),
    {
        Workspace {
            name,
            description,
            updated_at: now,
            ..workspace
        }
    }
}

} // verus!
