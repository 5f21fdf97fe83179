//! The records callers exchange with the repositories.
//!
//! Timestamps count whole seconds since the Unix epoch, the granularity
//! every instant has at this boundary. Identifiers are the lowercase
//! hexadecimal rendering of the storage engine's record identifiers.

use vstd::prelude::*;

verus! {

/// A user account.
///
/// The password hash never survives a read: every read path substitutes
/// the fixed redaction marker for whatever the store holds.
#[derive(Clone, Debug, PartialEq)]
pub struct User {
    pub id: String,
    pub username: String,
    pub passowrd_hash: String,
}

/// The mathematical shape of a [`User`].
pub struct UserModel {
    pub id: Seq<char>,
    pub username: Seq<char>,
    pub passowrd_hash: Seq<char>,
}

impl View for User {
    type V = UserModel;

    open spec fn view(&self) -> UserModel {
        UserModel { id: self.id@, username: self.username@, passowrd_hash: self.passowrd_hash@ }
    }
}

/// A workspace, carrying its creator as a full user value; reads populate
/// only the creator's identifier and redact the rest.
#[derive(Clone, Debug, PartialEq)]
pub struct Workspace {
    pub id: String,
    pub name: String,
    pub description: String,
    pub creator: User,
    pub created_at: i64,
    pub updated_at: i64,
}

/// The mathematical shape of a [`Workspace`].
pub struct WorkspaceModel {
    pub id: Seq<char>,
    pub name: Seq<char>,
    pub description: Seq<char>,
    pub creator: UserModel,
    pub created_at: i64,
    pub updated_at: i64,
}

impl View for Workspace {
    type V = WorkspaceModel;

    open spec fn view(&self) -> WorkspaceModel {
        WorkspaceModel {
            id: self.id@,
            name: self.name@,
            description: self.description@,
            creator: self.creator@,
            created_at: self.created_at,
            updated_at: self.updated_at,
        }
    }
}

/// A catalog inside a workspace.
#[derive(Clone, Debug, PartialEq)]
pub struct Catalog {
    pub id: String,
    pub workspace_id: String,
    pub name: String,
    pub description: String,
    pub creator: User,
    pub created_at: i64,
    pub updated_at: i64,
}

/// A table inside a catalog.
#[derive(Clone, Debug, PartialEq)]
pub struct Table {
    pub id: String,
    pub catalog_id: String,
    pub name: String,
    pub description: String,
    pub creator: User,
    pub created_at: i64,
    pub updated_at: i64,
}

} // verus!
