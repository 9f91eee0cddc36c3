//! Per-operation error taxonomy of the repository contract.
//!
//! Every operation carries its own error enum. `InvalidData` reports a
//! domain validation failure, `NotFound` a by-key lookup that matched no
//! row, and `Unknown` any lower-level failure with its message preserved
//! verbatim.

use vstd::prelude::*;

verus! {

/// Errors of `create`.
#[derive(Debug)]
pub enum RepoCreateError {
    InvalidData(String),
    Unknown(String),
}

/// Errors of `find_one`.
#[derive(Debug)]
pub enum RepoFindOneError {
    NotFound,
    Unknown(String),
}

/// Errors of `find_all`.
#[derive(Debug)]
pub enum RepoFindAllError {
    Unknown(String),
}

/// Errors of `update`.
#[derive(Debug)]
pub enum RepoUpdateError {
    NotFound,
    InvalidData(String),
    Unknown(String),
}

/// Errors of `delete` and `delete_all`.
#[derive(Debug)]
pub enum RepoDeleteError {
    NotFound,
    InvalidData(String),
    Unknown(String),
}

/// Errors of `get_all`.
#[derive(Debug)]
pub enum RepoGetAllError {
    Unknown(String),
}

} // verus!
