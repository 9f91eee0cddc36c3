//! In-memory model of the `coins` table, keyed by coin identifier.
//!
//! This is the store the use-case functions run against: a sequence of rows
//! satisfying the primary-key constraint, whose operations are proved equal
//! to the table transitions of `crate::table`. `create` upserts (re-creating
//! a row overwrites its fields, never duplicates it), `find_one` reports
//! `NotFound` for an absent key, and `update` and `delete` of an absent key
//! succeed silently, leaving the table unchanged.

use vstd::prelude::*;

use crate::coin::{Coin, CoinV};
use crate::domain::Value;
use crate::repository::{
    RepoCreateError, RepoDeleteError, RepoFindAllError, RepoFindOneError, RepoGetAllError,
    RepoUpdateError,
};
use crate::table::{
    filter_by, find_by, lemma_filter_push, lemma_find_match_at, lemma_find_no_match,
    lemma_remove_match_at, lemma_remove_no_match, lemma_remove_preserves_unique,
    lemma_update_match_at, lemma_update_no_match, lemma_update_preserves_unique,
    lemma_upsert_match_at, lemma_upsert_no_match, lemma_upsert_preserves_unique, remove_by,
    unique_keys, update_by, upsert_by,
};

verus! {

/// Key projection of the coins table: a row's identifier.
pub open spec fn coin_key() -> spec_fn(Coin) -> u32 {
    |c: Coin| c@.id
}

/// The images of a row sequence, row for row.
pub open spec fn coin_views(s: Seq<Coin>) -> Seq<CoinV> {
    s.map_values(|c: Coin| c@)
}

/// Key projection at the image level.
pub open spec fn coin_view_key() -> spec_fn(CoinV) -> u32 {
    |v: CoinV| v.id
}

/// Upserting a row then taking images is upserting the row's image.
pub proof fn lemma_views_upsert(s: Seq<Coin>, c: Coin)
    ensures
        coin_views(upsert_by(s, coin_key(), c)) == upsert_by(coin_views(s), coin_view_key(), c@),
    decreases s.len(),
{
    if s.len() == 0 {
        assert(coin_views(upsert_by(s, coin_key(), c))
            =~= upsert_by(coin_views(s), coin_view_key(), c@));
    } else if s[0]@.id == c@.id {
        assert(coin_views(s)[0] == s[0]@);
        assert(coin_views(upsert_by(s, coin_key(), c))
            =~= upsert_by(coin_views(s), coin_view_key(), c@));
    } else {
        lemma_views_upsert(s.drop_first(), c);
        assert(coin_views(s.drop_first()) =~= coin_views(s).drop_first());
        assert(coin_views(s)[0] == s[0]@);
        assert(coin_views(upsert_by(s, coin_key(), c))
            =~= seq![s[0]@] + coin_views(upsert_by(s.drop_first(), coin_key(), c)));
        assert(upsert_by(coin_views(s), coin_view_key(), c@)
            =~= seq![s[0]@] + upsert_by(coin_views(s).drop_first(), coin_view_key(), c@));
    }
}

/// Updating a row then taking images is updating the row's image.
pub proof fn lemma_views_update(s: Seq<Coin>, c: Coin)
    ensures
        coin_views(update_by(s, coin_key(), c)) == update_by(coin_views(s), coin_view_key(), c@),
    decreases s.len(),
{
    if s.len() == 0 {
        assert(coin_views(update_by(s, coin_key(), c))
            =~= update_by(coin_views(s), coin_view_key(), c@));
    } else if s[0]@.id == c@.id {
        assert(coin_views(s)[0] == s[0]@);
        assert(coin_views(update_by(s, coin_key(), c))
            =~= update_by(coin_views(s), coin_view_key(), c@));
    } else {
        lemma_views_update(s.drop_first(), c);
        assert(coin_views(s.drop_first()) =~= coin_views(s).drop_first());
        assert(coin_views(s)[0] == s[0]@);
        assert(coin_views(update_by(s, coin_key(), c))
            =~= seq![s[0]@] + update_by(coin_views(s).drop_first(), coin_view_key(), c@));
    }
}

/// The coins table: rows in insertion order, identifiers unique.
pub struct CoinTable {
    rows: Vec<Coin>,
}

impl View for CoinTable {
    type V = Seq<Coin>;

    closed spec fn view(&self) -> Seq<Coin> {
        self.rows@
    }
}

impl CoinTable {
    /// The primary-key constraint on the identifier column.
    pub open spec fn wf(&self) -> bool {
        unique_keys(self@, coin_key())
    }

    /// An empty table.
    pub fn new() -> (r: CoinTable)
        ensures
            r@ == Seq::<Coin>::empty(),
            r.wf(),
    {
        CoinTable { rows: Vec::new() }
    }

    /// Position of the first row with the given identifier, if any.
    fn index_of(&self, id: u32) -> (r: Option<usize>)
        ensures
            r matches Some(i) ==> i < self@.len() && self@[i as int]@.id == id
                && forall|j: int| 0 <= j < i ==> (#[trigger] self@[j])@.id != id,
            r is None ==> forall|j: int| 0 <= j < self@.len()
                ==> (#[trigger] self@[j])@.id != id,
    {
        let mut i: usize = 0;
        while i < self.rows.len()
            invariant
                i <= self@.len(),
                forall|j: int| 0 <= j < i ==> (#[trigger] self@[j])@.id != id,
            decreases self@.len() - i,
        {
            if *self.rows[i].id().value() == id {
                return Some(i);
            }
            i += 1;
        }
        None
    }

    /// Durably upserts: on a conflicting identifier every other field is
    /// overwritten in place; otherwise the row is appended. Returns the
    /// entity unchanged.
    pub fn create(&mut self, entity: Coin) -> (r: Result<Coin, RepoCreateError>)
        requires
            old(self).wf(),
        ensures
            final(self)@ == upsert_by(old(self)@, coin_key(), entity),
            final(self).wf(),
            r matches Ok(c) && c == entity,
    {
        let stored = entity.clone();
        match self.index_of(*entity.id().value()) {
            Some(i) => {
                self.rows.remove(i);
                self.rows.insert(i, stored);
                proof {
                    assert(coin_key()(old(self)@[i as int]) == coin_key()(entity));
                    lemma_upsert_match_at(old(self)@, coin_key(), entity, i as int);
                    assert(self@ =~= old(self)@.update(i as int, entity));
                    lemma_upsert_preserves_unique(old(self)@, coin_key(), entity);
                }
            },
            None => {
                self.rows.push(stored);
                proof {
                    lemma_upsert_no_match(old(self)@, coin_key(), entity);
                    assert(self@ =~= old(self)@.push(entity));
                    lemma_upsert_preserves_unique(old(self)@, coin_key(), entity);
                }
            },
        }
        Ok(entity)
    }

    /// Looks one row up by identifier; an absent key is `NotFound`.
    pub fn find_one(&mut self, entity: u32) -> (r: Result<Coin, RepoFindOneError>)
        ensures
            *final(self) == *old(self),
            r is Ok <==> find_by(old(self)@, coin_key(), entity) is Some,
            r matches Ok(c) ==> find_by(old(self)@, coin_key(), entity) == Some(c),
            r matches Err(e) ==> e is NotFound,
    {
        match self.index_of(entity) {
            Some(i) => {
                proof {
                    lemma_find_match_at(self@, coin_key(), i as int);
                }
                Ok(self.rows[i].clone())
            },
            None => {
                proof {
                    lemma_find_no_match(self@, coin_key(), entity);
                }
                Err(RepoFindOneError::NotFound)
            },
        }
    }

    /// All rows with the given identifier, in order; never fails. Under
    /// the primary-key constraint this is at most one row.
    pub fn find_all(&mut self, entity: u32) -> (r: Result<Vec<Coin>, RepoFindAllError>)
        ensures
            *final(self) == *old(self),
            r matches Ok(v) && v@ == filter_by(old(self)@, coin_key(), entity),
    {
        let mut out: Vec<Coin> = Vec::new();
        let mut i: usize = 0;
        while i < self.rows.len()
            invariant
                i <= self@.len(),
                out@ == filter_by(self@.take(i as int), coin_key(), entity),
            decreases self@.len() - i,
        {
            proof {
                lemma_filter_push(self@.take(i as int), coin_key(), entity, self@[i as int]);
                assert(self@.take(i as int).push(self@[i as int])
                    =~= self@.take(i as int + 1));
            }
            if *self.rows[i].id().value() == entity {
                out.push(self.rows[i].clone());
            }
            i += 1;
        }
        proof {
            assert(self@.take(self@.len() as int) =~= self@);
        }
        Ok(out)
    }

    /// Overwrites every non-key field of the row with the entity's
    /// identifier; an absent key succeeds silently and changes nothing.
    pub fn update(&mut self, entity: Coin) -> (r: Result<Coin, RepoUpdateError>)
        requires
            old(self).wf(),
        ensures
            final(self)@ == update_by(old(self)@, coin_key(), entity),
            final(self).wf(),
            r matches Ok(c) && c == entity,
    {
        let stored = entity.clone();
        match self.index_of(*entity.id().value()) {
            Some(i) => {
                self.rows.remove(i);
                self.rows.insert(i, stored);
                proof {
                    assert(coin_key()(old(self)@[i as int]) == coin_key()(entity));
                    lemma_update_match_at(old(self)@, coin_key(), entity, i as int);
                    assert(self@ =~= old(self)@.update(i as int, entity));
                    lemma_update_preserves_unique(old(self)@, coin_key(), entity);
                }
            },
            None => {
                proof {
                    lemma_update_no_match(old(self)@, coin_key(), entity);
                    lemma_update_preserves_unique(old(self)@, coin_key(), entity);
                }
            },
        }
        Ok(entity)
    }

    /// Deletes the row with the given identifier; an absent key succeeds
    /// silently and changes nothing.
    pub fn delete(&mut self, entity: u32) -> (r: Result<(), RepoDeleteError>)
        requires
            old(self).wf(),
        ensures
            final(self)@ == remove_by(old(self)@, coin_key(), entity),
            final(self).wf(),
            r is Ok,
    {
        match self.index_of(entity) {
            Some(i) => {
                self.rows.remove(i);
                proof {
                    assert(coin_key()(old(self)@[i as int]) == entity);
                    lemma_remove_match_at(old(self)@, coin_key(), i as int);
                    lemma_remove_preserves_unique(old(self)@, coin_key(), entity);
                }
            },
            None => {
                proof {
                    lemma_remove_no_match(old(self)@, coin_key(), entity);
                    lemma_remove_preserves_unique(old(self)@, coin_key(), entity);
                }
            },
        }
        Ok(())
    }

    /// Empties the table; never fails.
    pub fn delete_all(&mut self) -> (r: Result<(), RepoDeleteError>)
        ensures
            final(self)@ == Seq::<Coin>::empty(),
            final(self).wf(),
            r is Ok,
    {
        self.rows.clear();
        Ok(())
    }

    /// Every row in insertion order; never fails.
    pub fn get_all(&mut self) -> (r: Result<Vec<Coin>, RepoGetAllError>)
        ensures
            *final(self) == *old(self),
            r matches Ok(v) && v@ == old(self)@,
    {
        let mut out: Vec<Coin> = Vec::new();
        let mut i: usize = 0;
        while i < self.rows.len()
            invariant
                i <= self@.len(),
                out@ == self@.take(i as int),
            decreases self@.len() - i,
        {
            out.push(self.rows[i].clone());
            proof {
                assert(self@.take(i as int).push(self@[i as int])
                    =~= self@.take(i as int + 1));
            }
            i += 1;
        }
        proof {
            assert(self@.take(self@.len() as int) =~= self@);
        }
        Ok(out)
    }
}

} // verus!
