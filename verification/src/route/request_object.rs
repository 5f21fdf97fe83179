//! The bodies of workspace requests, as plain values.

use vstd::prelude::*;

verus! {

/// The body of a workspace-creation request.
#[derive(Clone, Debug, PartialEq)]
pub struct WorkspaceCreateParam {
    pub name: String,
    pub description: String,
    pub creator: String,
}

/// The body of a workspace-update request.
#[derive(Clone, Debug, PartialEq)]
pub struct WorkspaceUpdateParam {
    pub name: String,
    pub description: String,
}

} // verus!
