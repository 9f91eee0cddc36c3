//! Use case: create (upsert) one setting from an inbound request.

use vstd::prelude::*;

use crate::repository::RepoCreateError;
use crate::requests::CreateSettingRequest;
use crate::setting_table::{setting_key, SettingTable};
use crate::settings::{Setting, SettingError, SettingV};
use crate::table::upsert_by;

verus! {

/// Errors of the create-setting use case.
#[derive(Debug)]
pub enum CreateError {
    InvalidData(String),
    Unknown(String),
    SettingError(SettingError),
}

/// Converts the request into a validated `Setting` and upserts it by key.
/// Fails exactly when the key or the value is empty; the store itself
/// never rejects a valid setting.
pub fn create_setting(repository: &mut SettingTable, setting: CreateSettingRequest) -> (r:
    Result<Setting, CreateError>)
    requires
        old(repository).wf(),
    ensures
        final(repository).wf(),
        r is Ok <==> (setting.key@.len() > 0 && setting.value@.len() > 0),
        r matches Ok(s) ==> s@ == (SettingV { key: setting.key@, value: setting.value@ })
            && final(repository)@ == upsert_by(old(repository)@, setting_key(), s),
        r is Err ==> (r matches Err(e)
            && e matches CreateError::SettingError(inner)
            && inner matches SettingError::InvalidData(_)
            && *final(repository) == *old(repository)),
{
    let converted = match Setting::try_from(setting) {
        Ok(s) => s,
        Err(e) => {
            return Err(CreateError::SettingError(e));
        },
    };
    match repository.create(converted) {
        Ok(s) => Ok(s),
        Err(e) => Err(
            match e {
                RepoCreateError::InvalidData(m) => CreateError::InvalidData(m),
                RepoCreateError::Unknown(m) => CreateError::Unknown(m),
            },
        ),
    }
}

} // verus!
