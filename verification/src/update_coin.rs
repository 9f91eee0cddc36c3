//! Use case: rewrite one stored coin from a fetched quote.

use vstd::prelude::*;

use crate::coin::{invalid_coin_message, Coin, CoinV};
use crate::coin_table::{
    coin_key, coin_view_key, coin_views, lemma_views_update, CoinTable,
};
use crate::numeric::{sanitize_amount, sanitize_percent};
use crate::repository::RepoUpdateError;
use crate::requests::{response_of, CoinResponse};
use crate::table::update_by;

verus! {

/// Errors of the update-coin use case.
#[derive(Debug)]
pub enum UpdateError {
    InvalidData(String),
    Unknown(String),
    NotFound,
}

/// A quote is convertible exactly when its identifier is positive and its
/// name, symbol and timestamp are non-empty.
pub open spec fn response_valid(coin: CoinResponse) -> bool {
    coin.id > 0 && coin.name@.len() > 0 && coin.symbol@.len() > 0
        && coin.last_updated@.len() > 0
}

/// The coin a valid quote denotes, after sanitization.
pub open spec fn coin_of_response(coin: CoinResponse) -> CoinV {
    CoinV {
        id: coin.id,
        name: coin.name@,
        symbol: coin.symbol@,
        price: sanitize_amount(coin.price),
        volume_24h: sanitize_amount(coin.volume_24h),
        percent_change_1h: sanitize_percent(coin.percent_change_1h),
        percent_change_24h: sanitize_percent(coin.percent_change_24h),
        percent_change_7d: sanitize_percent(coin.percent_change_7d),
        market_cap: sanitize_amount(coin.market_cap),
        last_updated: coin.last_updated@,
    }
}

/// Converts the quote into a validated `Coin` and overwrites the stored
/// row with its identifier; updating an absent identifier succeeds
/// silently. Fails exactly when conversion fails.
pub fn update_coin(repository: &mut CoinTable, coin: CoinResponse) -> (r: Result<
    Coin,
    UpdateError,
>)
    requires
        old(repository).wf(),
    ensures
        final(repository).wf(),
        r is Ok <==> response_valid(coin),
        r matches Ok(c) ==> c@ == coin_of_response(coin)
            && final(repository)@ == update_by(old(repository)@, coin_key(), c),
        !response_valid(coin) ==> (r matches Err(e)
            && e matches UpdateError::InvalidData(m)
            && m@ == invalid_coin_message(coin.id, coin.name@, coin.symbol@,
                coin.last_updated@)
            && *final(repository) == *old(repository)),
{
    let converted = Coin::new(
        coin.id,
        coin.name,
        coin.symbol,
        coin.price,
        coin.volume_24h,
        coin.percent_change_1h,
        coin.percent_change_24h,
        coin.percent_change_7d,
        coin.market_cap,
        coin.last_updated,
    );
    let coin = match converted {
        Ok(c) => c,
        Err(e) => {
            return Err(UpdateError::InvalidData(e.to_owned()));
        },
    };
    match repository.update(coin) {
        Ok(c) => Ok(c),
        Err(e) => Err(
            match e {
                RepoUpdateError::InvalidData(m) => UpdateError::InvalidData(m),
                RepoUpdateError::Unknown(m) => UpdateError::Unknown(m),
                RepoUpdateError::NotFound => UpdateError::NotFound,
            },
        ),
    }
}

/// Index of the first quote that would fail conversion, or the batch's
/// length when every quote is convertible.
pub open spec fn first_invalid_response(coins: Seq<CoinResponse>) -> int
    decreases coins.len(),
{
    if coins.len() == 0 {
        0
    } else if !response_valid(coins[0]) {
        0
    } else {
        1 + first_invalid_response(coins.drop_first())
    }
}

/// What `first_invalid_response` points at: a wholly convertible prefix,
/// then either the batch's end or a quote that fails conversion.
pub proof fn lemma_first_invalid_response(coins: Seq<CoinResponse>)
    ensures
        0 <= first_invalid_response(coins) <= coins.len(),
        first_invalid_response(coins) < coins.len()
            ==> !response_valid(coins[first_invalid_response(coins)]),
        forall|j: int| 0 <= j < first_invalid_response(coins)
            ==> response_valid(#[trigger] coins[j]),
    decreases coins.len(),
{
    if coins.len() > 0 && response_valid(coins[0]) {
        lemma_first_invalid_response(coins.drop_first());
        assert forall|j: int| 0 <= j < first_invalid_response(coins)
            implies response_valid(#[trigger] coins[j]) by {
            if j > 0 {
                assert(coins.drop_first()[j - 1] == coins[j]);
                assert(response_valid(coins.drop_first()[j - 1]));
            }
        }
    }
}

/// A wholly convertible prefix followed by an inconvertible quote pins
/// `first_invalid_response` to that quote's position.
pub proof fn lemma_first_invalid_response_is(coins: Seq<CoinResponse>, k: int)
    requires
        0 <= k < coins.len(),
        !response_valid(coins[k]),
        forall|j: int| 0 <= j < k ==> response_valid(#[trigger] coins[j]),
    ensures
        first_invalid_response(coins) == k,
    decreases coins.len(),
{
    if k > 0 {
        assert(forall|j: int| 0 <= j < coins.len() - 1
            ==> coins.drop_first()[j] == #[trigger] coins[j + 1]);
        lemma_first_invalid_response_is(coins.drop_first(), k - 1);
    }
}

/// Effect of a batch update on the table's image: rewrite each quoted
/// coin in order, stopping at the first inconvertible quote.
pub open spec fn apply_update_responses(t: Seq<CoinV>, coins: Seq<CoinResponse>) -> Seq<CoinV>
    decreases coins.len(),
{
    if coins.len() == 0 {
        t
    } else if !response_valid(coins[0]) {
        t
    } else {
        apply_update_responses(
            update_by(t, coin_view_key(), coin_of_response(coins[0])),
            coins.drop_first(),
        )
    }
}

/// Extending a wholly convertible batch by one quote extends its effect
/// by one update (or, for an inconvertible quote, not at all).
pub proof fn lemma_apply_update_push(t: Seq<CoinV>, coins: Seq<CoinResponse>, q: CoinResponse)
    requires
        forall|j: int| 0 <= j < coins.len() ==> response_valid(#[trigger] coins[j]),
    ensures
        apply_update_responses(t, coins.push(q)) == if response_valid(q) {
            update_by(apply_update_responses(t, coins), coin_view_key(), coin_of_response(q))
        } else {
            apply_update_responses(t, coins)
        },
    decreases coins.len(),
{
    if coins.len() == 0 {
        assert(coins.push(q)[0] == q);
        assert(coins.push(q).drop_first() =~= Seq::<CoinResponse>::empty());
        if response_valid(q) {
            let t2 = update_by(t, coin_view_key(), coin_of_response(q));
            assert(apply_update_responses(t2, coins.push(q).drop_first()) == t2);
        }
    } else {
        assert(coins.push(q)[0] == coins[0]);
        assert(coins.push(q).drop_first() =~= coins.drop_first().push(q));
        lemma_apply_update_push(
            update_by(t, coin_view_key(), coin_of_response(coins[0])),
            coins.drop_first(),
            q,
        );
        assert(forall|j: int| 0 <= j < coins.len() - 1
            ==> coins.drop_first()[j] == #[trigger] coins[j + 1]);
    }
}

/// A batch's effect stops at its first inconvertible quote: what follows
/// is never applied.
pub proof fn lemma_apply_update_stops(t: Seq<CoinV>, coins: Seq<CoinResponse>, k: int)
    requires
        0 <= k < coins.len(),
        !response_valid(coins[k]),
        forall|j: int| 0 <= j < k ==> response_valid(#[trigger] coins[j]),
    ensures
        apply_update_responses(t, coins) == apply_update_responses(t, coins.take(k)),
    decreases coins.len(),
{
    if k == 0 {
        assert(coins.take(0) =~= Seq::<CoinResponse>::empty());
    } else {
        assert(forall|j: int| 0 <= j < coins.len() - 1
            ==> coins.drop_first()[j] == #[trigger] coins[j + 1]);
        let t2 = update_by(t, coin_view_key(), coin_of_response(coins[0]));
        lemma_apply_update_stops(t2, coins.drop_first(), k - 1);
        assert(coins.take(k)[0] == coins[0]);
        assert(coins.take(k).drop_first() =~= coins.drop_first().take(k - 1));
    }
}

/// Applies a batch of fetched quotes in order, rewriting each quoted
/// coin and stopping at the first quote that fails conversion; the
/// quotes before it stay applied. Succeeds exactly when every quote is
/// convertible, and then returns one rendered response per updated coin,
/// in order.
pub fn update_coins(repository: &mut CoinTable, coins: Vec<CoinResponse>) -> (r: Result<
    Vec<CoinResponse>,
    UpdateError,
>)
    requires
        old(repository).wf(),
    ensures
        final(repository).wf(),
        coin_views(final(repository)@) == apply_update_responses(
            coin_views(old(repository)@),
            coins@,
        ),
        r is Ok <==> first_invalid_response(coins@) == coins@.len(),
        r matches Ok(v) ==> v@.len() == coins@.len()
            && forall|i: int| 0 <= i < v@.len()
                ==> (#[trigger] v@[i])@ == response_of(coin_of_response(coins@[i])),
        r matches Err(e) ==> ({
            let failed = coins@[first_invalid_response(coins@)];
            &&& e matches UpdateError::InvalidData(m)
            &&& m@ == invalid_coin_message(failed.id, failed.name@, failed.symbol@,
                failed.last_updated@)
        }),
{
    let mut pending = coins;
    let ghost orig = pending@;
    let ghost t0 = coin_views(old(repository)@);
    let mut result: Vec<CoinResponse> = Vec::new();
    while pending.len() > 0
        invariant
            repository.wf(),
            result@.len() + pending@.len() == orig.len(),
            forall|i: int| 0 <= i < pending@.len()
                ==> pending@[i] == orig[result@.len() + i],
            forall|j: int| 0 <= j < result@.len() ==> response_valid(#[trigger] orig[j]),
            forall|j: int| 0 <= j < result@.len()
                ==> (#[trigger] result@[j])@ == response_of(coin_of_response(orig[j])),
            coin_views(repository@) == apply_update_responses(
                t0,
                orig.take(result@.len() as int),
            ),
            t0 == coin_views(old(repository)@),
            orig == coins@,
        decreases pending@.len(),
    {
        let ghost n = result@.len() as int;
        let ghost before = repository@;
        let quote = pending.remove(0);
        assert(quote == orig[n]);
        match update_coin(repository, quote) {
            Ok(c) => {
                proof {
                    lemma_views_update(before, c);
                    lemma_apply_update_push(t0, orig.take(n), orig[n]);
                    assert(orig.take(n).push(orig[n]) =~= orig.take(n + 1));
                }
                result.push(CoinResponse::from(c));
            },
            Err(e) => {
                proof {
                    lemma_first_invalid_response_is(orig, n);
                    lemma_apply_update_stops(t0, orig, n);
                }
                return Err(e);
            },
        }
    }
    proof {
        assert(orig.take(orig.len() as int) =~= orig);
        lemma_first_invalid_response(orig);
    }
    Ok(result)
}

} // verus!
