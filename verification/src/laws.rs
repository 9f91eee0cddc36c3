//! The store's laws, stated over the table transitions that the exec
//! operations are proved to implement.
//!
//! Each law is phrased against the same spec functions that appear in the
//! contracts of `CoinTable`, `SettingTable` and the use-case functions, so
//! composing those contracts with a law here yields the end-to-end fact.

use vstd::prelude::*;

use crate::coin::Coin;
use crate::coin_table::coin_key;
use crate::setting_table::setting_key;
use crate::settings::Setting;
use crate::table::{
    filter_by, find_by, lemma_filter_unique, lemma_find_after_remove_other,
    lemma_find_after_remove_same, lemma_find_after_upsert_other, lemma_find_after_upsert_same,
    lemma_find_no_match, lemma_upsert_last_write_wins, lemma_upsert_len, remove_by, unique_keys,
    upsert_by,
};

verus! {

/// Creating a coin and then fetching it by its identifier returns the
/// entity itself, field for field.
pub proof fn law_coin_create_then_find(s: Seq<Coin>, coin: Coin)
    ensures
        find_by(upsert_by(s, coin_key(), coin), coin_key(), coin@.id) == Some(coin),
{
    assert(coin_key()(coin) == coin@.id);
    lemma_find_after_upsert_same(s, coin_key(), coin);
}

/// Creating a coin leaves every other identifier's lookup unchanged.
pub proof fn law_coin_create_preserves_others(s: Seq<Coin>, coin: Coin, id: u32)
    requires
        id != coin@.id,
    ensures
        find_by(upsert_by(s, coin_key(), coin), coin_key(), id) == find_by(s, coin_key(), id),
{
    assert(coin_key()(coin) == coin@.id);
    lemma_find_after_upsert_other(s, coin_key(), coin, id);
}

/// Creating twice under one identifier keeps the second coin's values
/// entirely — last write wins, the first write leaves no trace.
pub proof fn law_coin_create_last_write_wins(s: Seq<Coin>, first: Coin, second: Coin)
    requires
        first@.id == second@.id,
    ensures
        upsert_by(upsert_by(s, coin_key(), first), coin_key(), second)
            == upsert_by(s, coin_key(), second),
{
    assert(coin_key()(first) == first@.id && coin_key()(second) == second@.id);
    lemma_upsert_last_write_wins(s, coin_key(), first, second);
}

/// Re-creating an existing identifier never duplicates its row: the table
/// grows only when the identifier was absent.
pub proof fn law_coin_create_no_duplicate(s: Seq<Coin>, coin: Coin)
    ensures
        upsert_by(s, coin_key(), coin).len() == if find_by(s, coin_key(), coin@.id) is Some {
            s.len()
        } else {
            s.len() + 1
        },
{
    assert(coin_key()(coin) == coin@.id);
    lemma_upsert_len(s, coin_key(), coin);
}

/// After deleting an identifier, looking it up finds nothing.
pub proof fn law_coin_delete_then_find(s: Seq<Coin>, id: u32)
    requires
        unique_keys(s, coin_key()),
    ensures
        find_by(remove_by(s, coin_key(), id), coin_key(), id) is None,
{
    lemma_find_after_remove_same(s, coin_key(), id);
}

/// Deleting one identifier leaves every other identifier's lookup
/// unchanged.
pub proof fn law_coin_delete_preserves_others(s: Seq<Coin>, id: u32, other: u32)
    requires
        other != id,
    ensures
        find_by(remove_by(s, coin_key(), id), coin_key(), other) == find_by(s, coin_key(), other),
{
    lemma_find_after_remove_other(s, coin_key(), id, other);
}

/// On an empty table every lookup misses: after `delete_all`, `find_one`
/// is `NotFound` and `get_all` is empty for every identifier.
pub proof fn law_coin_empty_table_finds_nothing(id: u32)
    ensures
        find_by(Seq::<Coin>::empty(), coin_key(), id) is None,
{
    lemma_find_no_match(Seq::<Coin>::empty(), coin_key(), id);
}

/// Under the primary-key constraint a by-identifier query returns the
/// found row alone or nothing — never two rows.
pub proof fn law_coin_find_all_at_most_one(s: Seq<Coin>, id: u32)
    requires
        unique_keys(s, coin_key()),
    ensures
        filter_by(s, coin_key(), id) == match find_by(s, coin_key(), id) {
            Some(c) => seq![c],
            None => Seq::<Coin>::empty(),
        },
{
    lemma_filter_unique(s, coin_key(), id);
}

/// Creating a setting and then fetching it by key returns the setting
/// itself.
pub proof fn law_setting_create_then_find(s: Seq<Setting>, setting: Setting)
    ensures
        find_by(upsert_by(s, setting_key(), setting), setting_key(), setting@.key)
            == Some(setting),
{
    assert(setting_key()(setting) == setting@.key);
    lemma_find_after_upsert_same(s, setting_key(), setting);
}

/// Creating twice under one key keeps the second value: a setting is
/// overwritten, never duplicated.
pub proof fn law_setting_create_last_write_wins(s: Seq<Setting>, first: Setting, second: Setting)
    requires
        first@.key == second@.key,
    ensures
        upsert_by(upsert_by(s, setting_key(), first), setting_key(), second)
            == upsert_by(s, setting_key(), second),
{
    assert(setting_key()(first) == first@.key && setting_key()(second) == second@.key);
    lemma_upsert_last_write_wins(s, setting_key(), first, second);
}

} // verus!
