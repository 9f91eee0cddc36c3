//! Use case: look one setting up by key.

use vstd::prelude::*;

use crate::repository::RepoFindOneError;
use crate::setting_table::{setting_key, SettingTable};
use crate::settings::Setting;
use crate::table::find_by;

verus! {

/// Errors of the find-setting use case.
#[derive(Debug)]
pub enum FindError {
    Unknown(String),
    NotFound,
}

/// Returns the setting stored under the given key, or `NotFound` when no
/// row has it.
pub fn find_setting(repository: &mut SettingTable, key: String) -> (r: Result<
    Setting,
    FindError,
>)
    ensures
        *final(repository) == *old(repository),
        r is Ok <==> find_by(old(repository)@, setting_key(), key@) is Some,
        r matches Ok(s) ==> find_by(old(repository)@, setting_key(), key@) == Some(s),
        r matches Err(e) ==> e is NotFound,
{
    match repository.find_one(key) {
        Ok(s) => Ok(s),
        Err(e) => Err(
            match e {
                RepoFindOneError::Unknown(m) => FindError::Unknown(m),
                RepoFindOneError::NotFound => FindError::NotFound,
            },
        ),
    }
}

} // verus!
