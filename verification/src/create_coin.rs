//! Use case: create (upsert) one coin from an inbound request.

use vstd::prelude::*;

use crate::coin::{invalid_coin_message, Coin, CoinV};
use crate::coin_table::{
    coin_key, coin_view_key, coin_views, lemma_views_upsert, CoinTable,
};
use crate::numeric::{flatten_absent, sanitize_amount, sanitize_percent};
use crate::repository::RepoCreateError;
use crate::requests::{CoinResponse, CreateCoinRequest, CreateCoinsRequest, response_of};
use crate::table::upsert_by;

verus! {

/// Errors of the create-coin use case.
#[derive(Debug)]
pub enum CreateError {
    InvalidData(String),
    Unknown(String),
}

/// A creation request is convertible exactly when its identifier is
/// positive and its name, symbol and timestamp are non-empty.
pub open spec fn request_valid(request: CreateCoinRequest) -> bool {
    request.id > 0 && request.name@.len() > 0 && request.symbol@.len() > 0
        && request.last_updated@.len() > 0
}

/// The coin a valid creation request denotes: missing numeric fields
/// default to the zero pattern and are then sanitized like any other.
pub open spec fn coin_of_request(request: CreateCoinRequest) -> CoinV {
    CoinV {
        id: request.id,
        name: request.name@,
        symbol: request.symbol@,
        price: sanitize_amount(flatten_absent(request.price)),
        volume_24h: sanitize_amount(flatten_absent(request.volume_24h)),
        percent_change_1h: sanitize_percent(flatten_absent(request.percent_change_1h)),
        percent_change_24h: sanitize_percent(flatten_absent(request.percent_change_24h)),
        percent_change_7d: sanitize_percent(flatten_absent(request.percent_change_7d)),
        market_cap: sanitize_amount(flatten_absent(request.market_cap)),
        last_updated: request.last_updated@,
    }
}

/// Converts the request into a validated `Coin` and upserts it. Fails
/// exactly when conversion fails, with the first value type's message;
/// the store itself never rejects a valid coin.
pub fn create_coin(repository: &mut CoinTable, coin: CreateCoinRequest) -> (r: Result<
    Coin,
    CreateError,
>)
    requires
        old(repository).wf(),
    ensures
        final(repository).wf(),
        r is Ok <==> request_valid(coin),
        r matches Ok(c) ==> c@ == coin_of_request(coin)
            && final(repository)@ == upsert_by(old(repository)@, coin_key(), c),
        !request_valid(coin) ==> (r matches Err(e)
            && e matches CreateError::InvalidData(m)
            && m@ == invalid_coin_message(coin.id, coin.name@, coin.symbol@,
                coin.last_updated@)
            && *final(repository) == *old(repository)),
{
    let converted = Coin::new(
        coin.id,
        coin.name,
        coin.symbol,
        coin.price.unwrap_or(0),
        coin.volume_24h.unwrap_or(0),
        coin.percent_change_1h.unwrap_or(0),
        coin.percent_change_24h.unwrap_or(0),
        coin.percent_change_7d.unwrap_or(0),
        coin.market_cap.unwrap_or(0),
        coin.last_updated,
    );
    let coin = match converted {
        Ok(c) => c,
        Err(e) => {
            return Err(CreateError::InvalidData(e.to_owned()));
        },
    };
    match repository.create(coin) {
        Ok(c) => Ok(c),
        Err(e) => Err(
            match e {
                RepoCreateError::InvalidData(m) => CreateError::InvalidData(m),
                RepoCreateError::Unknown(m) => CreateError::Unknown(m),
            },
        ),
    }
}

/// Index of the first request that would fail conversion, or the batch's
/// length when every request is convertible.
pub open spec fn first_invalid(reqs: Seq<CreateCoinRequest>) -> int
    decreases reqs.len(),
{
    if reqs.len() == 0 {
        0
    } else if !request_valid(reqs[0]) {
        0
    } else {
        1 + first_invalid(reqs.drop_first())
    }
}

/// What `first_invalid` points at: a wholly convertible prefix, then
/// either the batch's end or a request that fails conversion.
pub proof fn lemma_first_invalid(reqs: Seq<CreateCoinRequest>)
    ensures
        0 <= first_invalid(reqs) <= reqs.len(),
        first_invalid(reqs) < reqs.len() ==> !request_valid(reqs[first_invalid(reqs)]),
        forall|j: int| 0 <= j < first_invalid(reqs) ==> request_valid(#[trigger] reqs[j]),
    decreases reqs.len(),
{
    if reqs.len() > 0 && request_valid(reqs[0]) {
        lemma_first_invalid(reqs.drop_first());
        assert forall|j: int| 0 <= j < first_invalid(reqs)
            implies request_valid(#[trigger] reqs[j]) by {
            if j > 0 {
                assert(reqs.drop_first()[j - 1] == reqs[j]);
                assert(request_valid(reqs.drop_first()[j - 1]));
            }
        }
    }
}

/// A wholly convertible prefix followed by an inconvertible request pins
/// `first_invalid` to that request's position.
pub proof fn lemma_first_invalid_is(reqs: Seq<CreateCoinRequest>, k: int)
    requires
        0 <= k < reqs.len(),
        !request_valid(reqs[k]),
        forall|j: int| 0 <= j < k ==> request_valid(#[trigger] reqs[j]),
    ensures
        first_invalid(reqs) == k,
    decreases reqs.len(),
{
    if k > 0 {
        assert(forall|j: int| 0 <= j < reqs.len() - 1
            ==> reqs.drop_first()[j] == #[trigger] reqs[j + 1]);
        lemma_first_invalid_is(reqs.drop_first(), k - 1);
    }
}

/// Effect of a batch creation on the table's image: upsert each
/// convertible request in order, stopping at the first inconvertible one.
pub open spec fn apply_create_requests(t: Seq<CoinV>, reqs: Seq<CreateCoinRequest>) -> Seq<CoinV>
    decreases reqs.len(),
{
    if reqs.len() == 0 {
        t
    } else if !request_valid(reqs[0]) {
        t
    } else {
        apply_create_requests(
            upsert_by(t, coin_view_key(), coin_of_request(reqs[0])),
            reqs.drop_first(),
        )
    }
}

/// Extending a wholly convertible batch by one request extends its effect
/// by one upsert (or, for an inconvertible request, not at all).
pub proof fn lemma_apply_create_push(
    t: Seq<CoinV>,
    reqs: Seq<CreateCoinRequest>,
    q: CreateCoinRequest,
)
    requires
        forall|j: int| 0 <= j < reqs.len() ==> request_valid(#[trigger] reqs[j]),
    ensures
        apply_create_requests(t, reqs.push(q)) == if request_valid(q) {
            upsert_by(apply_create_requests(t, reqs), coin_view_key(), coin_of_request(q))
        } else {
            apply_create_requests(t, reqs)
        },
    decreases reqs.len(),
{
    if reqs.len() == 0 {
        assert(reqs.push(q)[0] == q);
        assert(reqs.push(q).drop_first() =~= Seq::<CreateCoinRequest>::empty());
        if request_valid(q) {
            let t2 = upsert_by(t, coin_view_key(), coin_of_request(q));
            assert(apply_create_requests(t2, reqs.push(q).drop_first()) == t2);
        }
    } else {
        assert(reqs.push(q)[0] == reqs[0]);
        assert(reqs.push(q).drop_first() =~= reqs.drop_first().push(q));
        lemma_apply_create_push(
            upsert_by(t, coin_view_key(), coin_of_request(reqs[0])),
            reqs.drop_first(),
            q,
        );
        assert(forall|j: int| 0 <= j < reqs.len() - 1
            ==> reqs.drop_first()[j] == #[trigger] reqs[j + 1]);
    }
}

/// A batch's effect stops at its first inconvertible request: what
/// follows is never applied.
pub proof fn lemma_apply_create_stops(t: Seq<CoinV>, reqs: Seq<CreateCoinRequest>, k: int)
    requires
        0 <= k < reqs.len(),
        !request_valid(reqs[k]),
        forall|j: int| 0 <= j < k ==> request_valid(#[trigger] reqs[j]),
    ensures
        apply_create_requests(t, reqs) == apply_create_requests(t, reqs.take(k)),
    decreases reqs.len(),
{
    if k == 0 {
        assert(reqs.take(0) =~= Seq::<CreateCoinRequest>::empty());
    } else {
        assert(forall|j: int| 0 <= j < reqs.len() - 1
            ==> reqs.drop_first()[j] == #[trigger] reqs[j + 1]);
        let t2 = upsert_by(t, coin_view_key(), coin_of_request(reqs[0]));
        lemma_apply_create_stops(t2, reqs.drop_first(), k - 1);
        assert(reqs.take(k)[0] == reqs[0]);
        assert(reqs.take(k).drop_first() =~= reqs.drop_first().take(k - 1));
    }
}

/// Creates the batch in order, upserting each coin and stopping at the
/// first request that fails conversion; the requests before it stay
/// committed. Succeeds exactly when every request is convertible, and
/// then returns one rendered response per created coin, in order.
pub fn create_coins(repository: &mut CoinTable, request: CreateCoinsRequest) -> (r: Result<
    Vec<CoinResponse>,
    CreateError,
>)
    requires
        old(repository).wf(),
    ensures
        final(repository).wf(),
        coin_views(final(repository)@) == apply_create_requests(
            coin_views(old(repository)@),
            request.coins@,
        ),
        r is Ok <==> first_invalid(request.coins@) == request.coins@.len(),
        r matches Ok(v) ==> v@.len() == request.coins@.len()
            && forall|i: int| 0 <= i < v@.len()
                ==> (#[trigger] v@[i])@ == response_of(coin_of_request(request.coins@[i])),
        r matches Err(e) ==> ({
            let failed = request.coins@[first_invalid(request.coins@)];
            &&& e matches CreateError::InvalidData(m)
            &&& m@ == invalid_coin_message(failed.id, failed.name@, failed.symbol@,
                failed.last_updated@)
        }),
{
    let mut coins = request.coins;
    let ghost orig = coins@;
    let ghost t0 = coin_views(old(repository)@);
    let mut result: Vec<CoinResponse> = Vec::new();
    while coins.len() > 0
        invariant
            repository.wf(),
            result@.len() + coins@.len() == orig.len(),
            forall|i: int| 0 <= i < coins@.len()
                ==> coins@[i] == orig[result@.len() + i],
            forall|j: int| 0 <= j < result@.len() ==> request_valid(#[trigger] orig[j]),
            forall|j: int| 0 <= j < result@.len()
                ==> (#[trigger] result@[j])@ == response_of(coin_of_request(orig[j])),
            coin_views(repository@) == apply_create_requests(
                t0,
                orig.take(result@.len() as int),
            ),
            t0 == coin_views(old(repository)@),
            orig == request.coins@,
        decreases coins@.len(),
    {
        let ghost n = result@.len() as int;
        let ghost before = repository@;
        let req = coins.remove(0);
        assert(req == orig[n]);
        match create_coin(repository, req) {
            Ok(c) => {
                proof {
                    lemma_views_upsert(before, c);
                    lemma_apply_create_push(t0, orig.take(n), orig[n]);
                    assert(orig.take(n).push(orig[n]) =~= orig.take(n + 1));
                }
                result.push(CoinResponse::from(c));
            },
            Err(e) => {
                proof {
                    assert(!request_valid(orig[n]));
                    lemma_first_invalid_is(orig, n);
                    lemma_apply_create_stops(t0, orig, n);
                    assert(coin_views(repository@) == apply_create_requests(t0, orig.take(n)));
                    assert(first_invalid(orig) == n && n < orig.len());
                }
                return Err(e);
            },
        }
    }
    proof {
        assert(orig.take(orig.len() as int) =~= orig);
        lemma_first_invalid(orig);
    }
    Ok(result)
}

} // verus!
