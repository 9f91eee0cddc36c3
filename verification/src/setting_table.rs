//! In-memory model of the `settings` table, keyed by setting name.
//!
//! The same semantics as the coins table: rows in insertion order under the
//! primary-key constraint, upserting `create`, `NotFound` from `find_one`
//! for an absent key, silent success from `update` and `delete`.

use vstd::prelude::*;

use crate::domain::Value;
use crate::repository::{
    RepoCreateError, RepoDeleteError, RepoFindAllError, RepoFindOneError, RepoGetAllError,
    RepoUpdateError,
};
use crate::settings::Setting;
use crate::table::{
    filter_by, find_by, lemma_filter_push, lemma_find_match_at, lemma_find_no_match,
    lemma_remove_match_at, lemma_remove_no_match, lemma_remove_preserves_unique,
    lemma_update_match_at, lemma_update_no_match, lemma_update_preserves_unique,
    lemma_upsert_match_at, lemma_upsert_no_match, lemma_upsert_preserves_unique, remove_by,
    unique_keys, update_by, upsert_by,
};

verus! {

/// Key projection of the settings table: a row's name.
pub open spec fn setting_key() -> spec_fn(Setting) -> Seq<char> {
    |s: Setting| s@.key
}

/// The settings table: rows in insertion order, keys unique.
pub struct SettingTable {
    rows: Vec<Setting>,
}

impl View for SettingTable {
    type V = Seq<Setting>;

    closed spec fn view(&self) -> Seq<Setting> {
        self.rows@
    }
}

impl SettingTable {
    /// The primary-key constraint on the key column.
    pub open spec fn wf(&self) -> bool {
        unique_keys(self@, setting_key())
    }

    /// An empty table.
    pub fn new() -> (r: SettingTable)
        ensures
            r@ == Seq::<Setting>::empty(),
            r.wf(),
    {
        SettingTable { rows: Vec::new() }
    }

    /// Position of the first row with the given key, if any.
    fn index_of(&self, key: &String) -> (r: Option<usize>)
        ensures
            r matches Some(i) ==> i < self@.len() && self@[i as int]@.key == key@
                && forall|j: int| 0 <= j < i ==> (#[trigger] self@[j])@.key != key@,
            r is None ==> forall|j: int| 0 <= j < self@.len()
                ==> (#[trigger] self@[j])@.key != key@,
    {
        let mut i: usize = 0;
        while i < self.rows.len()
            invariant
                i <= self@.len(),
                forall|j: int| 0 <= j < i ==> (#[trigger] self@[j])@.key != key@,
            decreases self@.len() - i,
        {
            if *self.rows[i].key().value() == *key {
                return Some(i);
            }
            i += 1;
        }
        None
    }

    /// Durably upserts: on a conflicting key the value is overwritten in
    /// place; otherwise the row is appended. Returns the entity unchanged.
    pub fn create(&mut self, entity: Setting) -> (r: Result<Setting, RepoCreateError>)
        requires
            old(self).wf(),
        ensures
            final(self)@ == upsert_by(old(self)@, setting_key(), entity),
            final(self).wf(),
            r matches Ok(s) && s == entity,
    {
        let stored = entity.clone();
        match self.index_of(entity.key().value()) {
            Some(i) => {
                self.rows.remove(i);
                self.rows.insert(i, stored);
                proof {
                    assert(setting_key()(old(self)@[i as int]) == setting_key()(entity));
                    lemma_upsert_match_at(old(self)@, setting_key(), entity, i as int);
                    assert(self@ =~= old(self)@.update(i as int, entity));
                    lemma_upsert_preserves_unique(old(self)@, setting_key(), entity);
                }
            },
            None => {
                self.rows.push(stored);
                proof {
                    lemma_upsert_no_match(old(self)@, setting_key(), entity);
                    assert(self@ =~= old(self)@.push(entity));
                    lemma_upsert_preserves_unique(old(self)@, setting_key(), entity);
                }
            },
        }
        Ok(entity)
    }

    /// Looks one row up by key; an absent key is `NotFound`.
    pub fn find_one(&mut self, entity: String) -> (r: Result<Setting, RepoFindOneError>)
        ensures
            *final(self) == *old(self),
            r is Ok <==> find_by(old(self)@, setting_key(), entity@) is Some,
            r matches Ok(s) ==> find_by(old(self)@, setting_key(), entity@) == Some(s),
            r matches Err(e) ==> e is NotFound,
    {
        match self.index_of(&entity) {
            Some(i) => {
                proof {
                    lemma_find_match_at(self@, setting_key(), i as int);
                }
                Ok(self.rows[i].clone())
            },
            None => {
                proof {
                    lemma_find_no_match(self@, setting_key(), entity@);
                }
                Err(RepoFindOneError::NotFound)
            },
        }
    }

    /// All rows with the given key, in order; never fails. Under the
    /// primary-key constraint this is at most one row.
    pub fn find_all(&mut self, entity: String) -> (r: Result<Vec<Setting>, RepoFindAllError>)
        ensures
            *final(self) == *old(self),
            r matches Ok(v) && v@ == filter_by(old(self)@, setting_key(), entity@),
    {
        let mut out: Vec<Setting> = Vec::new();
        let mut i: usize = 0;
        while i < self.rows.len()
            invariant
                i <= self@.len(),
                out@ == filter_by(self@.take(i as int), setting_key(), entity@),
            decreases self@.len() - i,
        {
            proof {
                lemma_filter_push(self@.take(i as int), setting_key(), entity@,
                    self@[i as int]);
                assert(self@.take(i as int).push(self@[i as int])
                    =~= self@.take(i as int + 1));
            }
            if *self.rows[i].key().value() == entity {
                out.push(self.rows[i].clone());
            }
            i += 1;
        }
        proof {
            assert(self@.take(self@.len() as int) =~= self@);
        }
        Ok(out)
    }

    /// Overwrites the value of the row with the entity's key; an absent
    /// key succeeds silently and changes nothing.
    pub fn update(&mut self, entity: Setting) -> (r: Result<Setting, RepoUpdateError>)
        requires
            old(self).wf(),
        ensures
            final(self)@ == update_by(old(self)@, setting_key(), entity),
            final(self).wf(),
            r matches Ok(s) && s == entity,
    {
        let stored = entity.clone();
        match self.index_of(entity.key().value()) {
            Some(i) => {
                self.rows.remove(i);
                self.rows.insert(i, stored);
                proof {
                    assert(setting_key()(old(self)@[i as int]) == setting_key()(entity));
                    lemma_update_match_at(old(self)@, setting_key(), entity, i as int);
                    assert(self@ =~= old(self)@.update(i as int, entity));
                    lemma_update_preserves_unique(old(self)@, setting_key(), entity);
                }
            },
            None => {
                proof {
                    lemma_update_no_match(old(self)@, setting_key(), entity);
                    lemma_update_preserves_unique(old(self)@, setting_key(), entity);
                }
            },
        }
        Ok(entity)
    }

    /// Deletes the row with the given key; an absent key succeeds silently
    /// and changes nothing.
    pub fn delete(&mut self, entity: String) -> (r: Result<(), RepoDeleteError>)
        requires
            old(self).wf(),
        ensures
            final(self)@ == remove_by(old(self)@, setting_key(), entity@),
            final(self).wf(),
            r is Ok,
    {
        match self.index_of(&entity) {
            Some(i) => {
                self.rows.remove(i);
                proof {
                    assert(setting_key()(old(self)@[i as int]) == entity@);
                    lemma_remove_match_at(old(self)@, setting_key(), i as int);
                    lemma_remove_preserves_unique(old(self)@, setting_key(), entity@);
                }
            },
            None => {
                proof {
                    lemma_remove_no_match(old(self)@, setting_key(), entity@);
                    lemma_remove_preserves_unique(old(self)@, setting_key(), entity@);
                }
            },
        }
        Ok(())
    }

    /// Empties the table; never fails.
    pub fn delete_all(&mut self) -> (r: Result<(), RepoDeleteError>)
        ensures
            final(self)@ == Seq::<Setting>::empty(),
            final(self).wf(),
            r is Ok,
    {
        self.rows.clear();
        Ok(())
    }

    /// Every row in insertion order; never fails.
    pub fn get_all(&mut self) -> (r: Result<Vec<Setting>, RepoGetAllError>)
        ensures
            *final(self) == *old(self),
            r matches Ok(v) && v@ == old(self)@,
    {
        let mut out: Vec<Setting> = Vec::new();
        let mut i: usize = 0;
        while i < self.rows.len()
            invariant
                i <= self@.len(),
                out@ == self@.take(i as int),
            decreases self@.len() - i,
        {
            out.push(self.rows[i].clone());
            proof {
                assert(self@.take(i as int).push(self@[i as int])
                    =~= self@.take(i as int + 1));
            }
            i += 1;
        }
        proof {
            assert(self@.take(self@.len() as int) =~= self@);
        }
        Ok(out)
    }
}

} // verus!
