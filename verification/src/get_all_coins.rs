//! Use case: list every stored coin.

use vstd::prelude::*;

use crate::coin::Coin;
use crate::coin_table::CoinTable;
use crate::repository::RepoGetAllError;

verus! {

/// Errors of the get-all-coins use case.
#[derive(Debug)]
pub enum GetAllCoinsError {
    Unknown(String),
}

/// Returns every stored coin in insertion order; never fails, and an
/// empty table yields an empty list rather than an error.
pub fn get_all_coins(repository: &mut CoinTable) -> (r: Result<Vec<Coin>, GetAllCoinsError>)
    ensures
        *final(repository) == *old(repository),
        r matches Ok(v) && v@ == old(repository)@,
{
    match repository.get_all() {
        Ok(v) => Ok(v),
        Err(e) => Err(
            match e {
                RepoGetAllError::Unknown(m) => GetAllCoinsError::Unknown(m),
            },
        ),
    }
}

} // verus!
