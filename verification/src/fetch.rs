//! Judgment of a market-data quotes response.
//!
//! Fetching itself is HTTP done by the surrounding application; what is
//! decided here is what the parsed body means: a nonzero status code is an
//! error carrying the upstream message, an empty data set is an error, and
//! anything else is the batch of quotes.

use vstd::prelude::*;
use vstd::string::StringExecFns;

use crate::requests::{CoinResponse, CoinsResponse};

verus! {

/// Decides what a parsed quotes response means. Fails exactly on a
/// nonzero status code (keeping the upstream message) or an empty batch;
/// otherwise hands the quotes back unchanged.
pub fn evaluate_quotes_response(
    error_code: i64,
    error_message: String,
    coins: Vec<CoinResponse>,
) -> (r: Result<CoinsResponse, String>)
    ensures
        error_code != 0 ==> (r matches Err(m) && m@ == "Error: "@ + error_message@),
        error_code == 0 && coins@.len() == 0 ==> (r matches Err(m)
            && m@ == "Error: No data found"@),
        error_code == 0 && coins@.len() > 0 ==> (r matches Ok(c) && c.coins@ == coins@),
{
    if error_code != 0 {
        Err("Error: ".to_owned().concat(error_message.as_str()))
    } else if coins.len() == 0 {
        Err("Error: No data found".to_owned())
    } else {
        Ok(CoinsResponse { coins })
    }
}

} // verus!
