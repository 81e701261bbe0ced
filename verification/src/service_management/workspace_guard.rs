//! Locating the workspace an `add service` command runs in.
use vstd::prelude::*;

use crate::service_management::add_service_error::AddServiceError;
use crate::workspace_root::{first_marked_directory, is_first_marked, none_marked};

verus! {

/// The file that marks the root of a workspace.
pub const METADATA_FILE: &'static str = "nfw.yaml";

/// Finds the workspace root among a directory and its ancestors.
#[derive(Debug, Clone, Copy)]
pub struct AddServiceWorkspaceContextGuard;

impl AddServiceWorkspaceContextGuard {
    pub fn new() -> (r: AddServiceWorkspaceContextGuard) {
        AddServiceWorkspaceContextGuard
    }

    /// The workspace root: the first of `candidates` (the current directory, then
    /// its ancestors, nearest first) that holds the workspace file, as
    /// `has_metadata` tells.
    pub fn ensure_workspace_root(&self, candidates: &Vec<String>, has_metadata: &Vec<bool>) -> (r: Result<
        String,
        AddServiceError,
    >)
        requires
            candidates@.len() == has_metadata@.len(),
        ensures
            match r {
                Ok(root) => is_first_marked(candidates@, has_metadata@, root@),
                Err(e) => none_marked(has_metadata@) && (e matches AddServiceError::InvalidWorkspaceContext(m)
                    && m@ == "could not find nfw.yaml in current directory or parent directories"@),
            },
    {
        match first_marked_directory(candidates, has_metadata) {
            Some(root) => Ok(root),
            None => Err(
                AddServiceError::InvalidWorkspaceContext(
                    "could not find nfw.yaml in current directory or parent directories".to_owned(),
                ),
            ),
        }
    }
}

} // verus!
