//! Use case: look coins up by identifier.

use vstd::prelude::*;

use crate::coin::Coin;
use crate::coin_table::{coin_key, CoinTable};
use crate::repository::{RepoFindAllError, RepoFindOneError};
use crate::table::{filter_by, find_by};

verus! {

/// Errors of the find-coin use cases.
#[derive(Debug)]
pub enum FindError {
    Unknown(String),
    NotFound,
}

/// Returns the coin with the given identifier, or `NotFound` when no row
/// has it.
pub fn find_coin(repository: &mut CoinTable, id: u32) -> (r: Result<Coin, FindError>)
    ensures
        *final(repository) == *old(repository),
        r is Ok <==> find_by(old(repository)@, coin_key(), id) is Some,
        r matches Ok(c) ==> find_by(old(repository)@, coin_key(), id) == Some(c),
        r matches Err(e) ==> e is NotFound,
{
    match repository.find_one(id) {
        Ok(c) => Ok(c),
        Err(e) => Err(
            match e {
                RepoFindOneError::Unknown(m) => FindError::Unknown(m),
                RepoFindOneError::NotFound => FindError::NotFound,
            },
        ),
    }
}

/// Returns every coin with the given identifier, in order; never fails.
/// Under the primary-key constraint this is at most one row.
pub fn find_coins(repository: &mut CoinTable, id: u32) -> (r: Result<Vec<Coin>, FindError>)
    ensures
        *final(repository) == *old(repository),
        r matches Ok(v) && v@ == filter_by(old(repository)@, coin_key(), id),
{
    match repository.find_all(id) {
        Ok(v) => Ok(v),
        Err(e) => Err(
            match e {
                RepoFindAllError::Unknown(m) => FindError::Unknown(m),
            },
        ),
    }
}

} // verus!
