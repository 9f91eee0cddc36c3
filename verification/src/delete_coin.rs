//! Use cases: delete one coin, or every coin.

use vstd::prelude::*;

use crate::coin_table::{coin_key, CoinTable};
use crate::repository::RepoDeleteError;
use crate::table::remove_by;

verus! {

/// Errors of the delete-coin use cases.
#[derive(Debug)]
pub enum DeleteError {
    InvalidData(String),
    Unknown(String),
    NotFound,
}

/// Deletes the coin with the given identifier; deleting an absent
/// identifier succeeds silently.
pub fn delete_coin(repository: &mut CoinTable, id: u32) -> (r: Result<(), DeleteError>)
    requires
        old(repository).wf(),
    ensures
        final(repository).wf(),
        final(repository)@ == remove_by(old(repository)@, coin_key(), id),
        r is Ok,
{
    match repository.delete(id) {
        Ok(()) => Ok(()),
        Err(e) => Err(
            match e {
                RepoDeleteError::InvalidData(m) => DeleteError::InvalidData(m),
                RepoDeleteError::Unknown(m) => DeleteError::Unknown(m),
                RepoDeleteError::NotFound => DeleteError::NotFound,
            },
        ),
    }
}

/// Empties the coins table; never fails.
pub fn delete_all_coins(repository: &mut CoinTable) -> (r: Result<(), DeleteError>)
    ensures
        final(repository).wf(),
        final(repository)@ == Seq::<crate::coin::Coin>::empty(),
        r is Ok,
{
    match repository.delete_all() {
        Ok(()) => Ok(()),
        Err(e) => Err(
            match e {
                RepoDeleteError::InvalidData(m) => DeleteError::InvalidData(m),
                RepoDeleteError::Unknown(m) => DeleteError::Unknown(m),
                RepoDeleteError::NotFound => DeleteError::NotFound,
            },
        ),
    }
}

} // verus!
