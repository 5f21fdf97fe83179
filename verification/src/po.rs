//! The persistence-object records: the shapes the storage engine holds.
//!
//! A record's identifier is absent before the first insert (the store
//! assigns it) and a nested creator is flattened to a bare identifier
//! reference. Timestamps count whole seconds since the Unix epoch; the rim
//! widens them to the driver's millisecond representation when a record
//! crosses the wire.

use vstd::prelude::*;

use crate::repository::mongo::object_id::ObjectId;

verus! {

/// A stored user record.
#[derive(Clone, Debug, PartialEq)]
pub struct User {
    pub id: Option<ObjectId>,
    pub username: String,
    pub passowrd_hash: String,
}

/// The mathematical shape of a stored user record.
pub struct UserModel {
    pub id: Option<Seq<u8>>,
    pub username: Seq<char>,
    pub passowrd_hash: Seq<char>,
}

impl View for User {
    type V = UserModel;

    open spec fn view(&self) -> UserModel {
        UserModel {
            id: match self.id {
                Some(oid) => Some(oid@),
                None => None,
            },
            username: self.username@,
            passowrd_hash: self.passowrd_hash@,
        }
    }
}

/// A stored workspace record; the creator is a bare identifier reference.
#[derive(Clone, Debug, PartialEq)]
pub struct Workspace {
    pub id: Option<ObjectId>,
    pub name: String,
    pub description: String,
    pub creator: ObjectId,
    pub created_at: i64,
    pub updated_at: i64,
}

/// The mathematical shape of a stored workspace record.
pub struct WorkspaceModel {
    pub id: Option<Seq<u8>>,
    pub name: Seq<char>,
    pub description: Seq<char>,
    pub creator: Seq<u8>,
    pub created_at: i64,
    pub updated_at: i64,
}

impl View for Workspace {
    type V = WorkspaceModel;

    open spec fn view(&self) -> WorkspaceModel {
        WorkspaceModel {
            id: match self.id {
                Some(oid) => Some(oid@),
                None => None,
            },
            name: self.name@,
            description: self.description@,
            creator: self.creator@,
            created_at: self.created_at,
            updated_at: self.updated_at,
        }
    }
}

/// A stored catalog record.
#[derive(Clone, Debug, PartialEq)]
pub struct Catalog {
    pub id: Option<ObjectId>,
    pub workspace_id: String,
    pub name: String,
    pub description: String,
    pub creator: ObjectId,
    pub created_at: i64,
    pub updated_at: i64,
}

/// A stored table record.
#[derive(Clone, Debug, PartialEq)]
pub struct Table {
    pub id: Option<ObjectId>,
    pub catalog_id: String,
    pub name: String,
    pub description: String,
    pub creator: ObjectId,
    pub created_at: i64,
    pub updated_at: i64,
}

} // verus!
