//! The entity store: owns all entities, addressed by unique id or by tag.

use vstd::prelude::*;
use crate::entity::Entity;

verus! {

/// A reference to one entity (by id) or to the live set of entities
/// currently carrying a tag, resolved at use-time.
#[derive(Debug)]
pub enum Target {
    ById(String),
    ByTag(String),
}

/// Error kinds of scene construction and action dispatch.
#[derive(Clone, Copy, Debug, PartialEq, Eq, Structural)]
pub enum SceneError {
    /// An entity with the same id is already stored.
    DuplicateId,
    /// A placement reference resolved to no entity.
    NotFound,
    /// A placement reference resolved to more than one entity.
    AmbiguousTarget,
}

/// The entity carries the id or tag the target names.
pub open spec fn target_matches(e: Entity, t: Target) -> bool {
    match t {
        Target::ById(id) => e.id@ == id@,
        Target::ByTag(tag) => e.spec_has_tag(tag@),
    }
}

/// Some entity among the first `n` has the given id.
pub open spec fn has_id_upto(s: Seq<Entity>, id: Seq<char>, n: int) -> bool {
    exists|i: int| 0 <= i < n && i < s.len() && s[i].id@ == id
}

/// Some stored entity has the given id.
pub open spec fn has_id(s: Seq<Entity>, id: Seq<char>) -> bool {
    exists|i: int| 0 <= i < s.len() && s[i].id@ == id
}

/// Ids are pairwise distinct.
pub open spec fn ids_unique(s: Seq<Entity>) -> bool {
    forall|i: int, j: int| 0 <= i < j < s.len() ==> s[i].id@ != s[j].id@
}

/// The indices, in increasing order, of the entities among the first `n`
/// that the target resolves to.
pub open spec fn resolved_upto(s: Seq<Entity>, t: Target, n: int) -> Seq<usize>
    decreases n,
{
    if n <= 0 {
        Seq::empty()
    } else {
        let p = resolved_upto(s, t, n - 1);
        if target_matches(s[n - 1], t) {
            p.push((n - 1) as usize)
        } else {
            p
        }
    }
}

/// The ordered set of indices a target resolves to: empty when an id is
/// missing or no entity carries the tag, never an error.
pub open spec fn spec_resolve(s: Seq<Entity>, t: Target) -> Seq<usize> {
    resolved_upto(s, t, s.len() as int)
}

/// Mapping from unique id to entity; the tag index is derived live from
/// the entities' tag lists, so it always refers to stored entities.
#[derive(Debug)]
pub struct EntityStore {
    pub entities: Vec<Entity>,
}

impl EntityStore {
    pub open spec fn wf(self) -> bool {
        &&& ids_unique(self.entities@)
        &&& forall|i: int| 0 <= i < self.entities@.len() ==> #[trigger] self.entities@[i].wf()
    }

    pub fn new() -> (r: EntityStore)
        ensures
            r.entities@ =~= Seq::<Entity>::empty(),
            r.wf(),
    {
        EntityStore { entities: Vec::new() }
    }

    pub fn len(&self) -> (r: usize)
        ensures
            r == self.entities@.len(),
    {
        self.entities.len()
    }

    /// The index of the entity with the given id, if any.
    pub fn find_index(&self, id: &String) -> (r: Option<usize>)
        ensures
            match r {
                Some(i) => i < self.entities@.len() && self.entities@[i as int].id@ == id@,
                None => !has_id(self.entities@, id@),
            },
    {
        let n: usize = self.entities.len();
        let mut i: usize = 0;
        while i < n
            invariant
                i <= n,
                n == self.entities@.len(),
                !has_id_upto(self.entities@, id@, i as int),
            decreases n - i,
        {
            if self.entities[i].id == *id {
                return Some(i);
            }
            i += 1;
        }
        None
    }

    /// Insert a fresh entity under its id; fails, leaving the store
    /// unchanged, exactly when the id is already present.
    pub fn insert(&mut self, e: Entity) -> (r: Result<(), SceneError>)
        requires
            old(self).wf(),
            e.wf(),
        ensures
            final(self).wf(),
            match r {
                Ok(()) => !has_id(old(self).entities@, e.id@) && final(self).entities@ == old(
                    self,
                ).entities@.push(e),
                Err(err) => err == SceneError::DuplicateId && has_id(old(self).entities@, e.id@)
                    && *final(self) == *old(self),
            },
    {
        match self.find_index(&e.id) {
            Some(_) => Err(SceneError::DuplicateId),
            None => {
                proof {
                    let s = self.entities@;
                    assert forall|i: int, j: int| 0 <= i < j < s.push(e).len() implies s.push(e)[i].id@
                        != s.push(e)[j].id@ by {
                        if j == s.len() {
                            assert(!has_id(s, e.id@));
                            assert(s[i].id@ != e.id@);
                        }
                    };
                }
                self.entities.push(e);
                Ok(())
            },
        }
    }

    /// Shared access to the entity with the given id; fails with the
    /// not-found error exactly when the id is absent.
    pub fn get(&self, id: &String) -> (r: Result<&Entity, SceneError>)
        ensures
            match r {
                Ok(e) => has_id(self.entities@, id@) && e.id@ == id@ && exists|i: int|
                    0 <= i < self.entities@.len() && self.entities@[i] == *e,
                Err(err) => err == SceneError::NotFound && !has_id(self.entities@, id@),
            },
    {
        match self.find_index(id) {
            Some(i) => Ok(&self.entities[i]),
            None => Err(SceneError::NotFound),
        }
    }

    /// Exclusive access to the entity with the given id; fails with the
    /// not-found error exactly when the id is absent, leaving the store
    /// unchanged. The caller's writes through the reference become the
    /// stored entity.
    pub fn get_mut(&mut self, id: &String) -> (r: Result<&mut Entity, SceneError>)
        ensures
            match r {
                Ok(e) => has_id(old(self).entities@, id@) && e.id@ == id@ && exists|i: int|
                    #![all_triggers]
                    0 <= i < old(self).entities@.len() && old(self).entities@[i] == *e
                        && final(self).entities@ == old(self).entities@.update(i, *final(e)),
                Err(err) => err == SceneError::NotFound && !has_id(old(self).entities@, id@)
                    && *final(self) == *old(self),
            },
    {
        match self.find_index(id) {
            Some(i) => Ok(&mut self.entities[i]),
            None => Err(SceneError::NotFound),
        }
    }

    /// The ordered set of entity indices the target currently resolves to.
    pub fn resolve(&self, t: &Target) -> (r: Vec<usize>)
        ensures
            r@ == spec_resolve(self.entities@, *t),
    {
        let n: usize = self.entities.len();
        let mut r: Vec<usize> = Vec::new();
        let mut i: usize = 0;
        while i < n
            invariant
                i <= n,
                n == self.entities@.len(),
                r@ == resolved_upto(self.entities@, *t, i as int),
            decreases n - i,
        {
            let m: bool = match t {
                Target::ById(id) => self.entities[i].id == *id,
                Target::ByTag(tag) => self.entities[i].has_tag(tag),
            };
            if m {
                r.push(i);
            }
            i += 1;
        }
        r
    }
}

impl EntityStore {
    /// The ordered set of entity ids the target currently resolves to:
    /// the live lookup, empty when an id is missing or no entity carries
    /// the tag, never an error.
    pub fn resolve_ids(&self, t: &Target) -> (r: Vec<String>)
        ensures
            r@.len() == spec_resolve(self.entities@, *t).len(),
            forall|k: int|
                0 <= k < r@.len() ==> (#[trigger] r@[k])@ == self.entities@[spec_resolve(
                    self.entities@,
                    *t,
                )[k] as int].id@,
    {
        let total: usize = self.entities.len();
        proof {
            assert(self.entities@.len() == total as int);
            lemma_resolved_upto_complete(self.entities@, *t, self.entities@.len() as int);
        }
        let idxs: Vec<usize> = self.resolve(t);
        let n: usize = idxs.len();
        let mut r: Vec<String> = Vec::new();
        let mut k: usize = 0;
        while k < n
            invariant
                k <= n,
                n == idxs@.len(),
                idxs@ == spec_resolve(self.entities@, *t),
                forall|j: int|
                    0 <= j < n ==> (#[trigger] idxs@[j] as int) < self.entities@.len(),
                r@.len() == k as int,
                forall|j: int|
                    0 <= j < k ==> (#[trigger] r@[j])@ == self.entities@[idxs@[j] as int].id@,
            decreases n - k,
        {
            r.push(self.entities[idxs[k]].id.clone());
            k += 1;
        }
        r
    }
}

/// Every resolved index is in range and matches the target, and every
/// matching index is resolved: resolution is exactly the live lookup.
pub proof fn lemma_resolved_upto_complete(s: Seq<Entity>, t: Target, n: int)
    requires
        0 <= n <= s.len(),
        s.len() <= usize::MAX as int,
    ensures
        forall|k: int| #![auto] 0 <= k < resolved_upto(s, t, n).len() ==> (resolved_upto(
            s,
            t,
            n,
        )[k] as int) < n && target_matches(s[resolved_upto(s, t, n)[k] as int], t),
        forall|i: int| #![auto] 0 <= i < n && target_matches(s[i], t) ==> resolved_upto(
            s,
            t,
            n,
        ).contains(i as usize),
    decreases n,
{
    if n > 0 {
        lemma_resolved_upto_complete(s, t, n - 1);
        let p = resolved_upto(s, t, n - 1);
        let r = resolved_upto(s, t, n);
        assert forall|i: int| #![auto] 0 <= i < n && target_matches(s[i], t) implies r.contains(
            i as usize,
        ) by {
            if i < n - 1 {
                let k = choose|k: int| 0 <= k < p.len() && p[k] == i as usize;
                assert(r[k] == i as usize);
            } else {
                assert(r[r.len() - 1] == i as usize);
            }
        };
    }
}

} // verus!
