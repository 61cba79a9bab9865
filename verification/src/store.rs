use std::collections::HashMap;
use vstd::prelude::*;
use vstd::pervasive::VecAdditionalExecFns;

use crate::models::{Lifecycle, LifecycleSpec, LookupError, StageImage, StageSpec};
use crate::text::{max2, max_i64};

verus! {

broadcast use vstd::std_specs::hash::group_hash_axioms;

/// Every record a store holds is well formed.
pub open spec fn store_wf(m: Map<u128, LifecycleSpec>) -> bool {
    forall|k: u128| m.contains_key(k) ==> (#[trigger] m[k]).wf()
}

/// A lifecycle with one stage record replaced whole: the update stamp is
/// bumped to cover both the stage's own stamp and the caller's clock, and
/// nothing else moves.
pub open spec fn stage_replaced(
    lc: LifecycleSpec,
    i: int,
    st: StageSpec,
    now: int,
) -> LifecycleSpec {
    LifecycleSpec {
        stages: lc.stages.update(i, st),
        updated_at: max2(lc.updated_at, max2(st.last_updated, now)),
        ..lc
    }
}

/// A lifecycle with one stage's prompt and image rewritten and its stamp set
/// to the caller's clock; the stage's name and description are untouched.
pub open spec fn prompt_image_applied(
    lc: LifecycleSpec,
    i: int,
    prompt: Seq<char>,
    image: Seq<char>,
    now: int,
) -> LifecycleSpec {
    let st = StageSpec {
        prompt: prompt,
        image: Some(image),
        last_updated: now,
        ..lc.stages[i]
    };
    LifecycleSpec { stages: lc.stages.update(i, st), updated_at: max2(lc.updated_at, now), ..lc }
}

/// The keyed in-memory store of lifecycles: the single source of truth.
/// Callers always receive copies, never handles into the store.
pub struct LifecycleStore {
    map: HashMap<u128, Lifecycle>,
}

impl View for LifecycleStore {
    type V = Map<u128, LifecycleSpec>;

    closed spec fn view(&self) -> Map<u128, LifecycleSpec> {
        self.map@.map_values(|l: Lifecycle| l@)
    }
}

impl LifecycleStore {
    /// Whether every record held is well formed.
    pub open spec fn wf(&self) -> bool {
        store_wf(self@)
    }

    pub fn new() -> (r: LifecycleStore)
        ensures
            r@ == Map::<u128, LifecycleSpec>::empty(),
            r.wf(),
    {
        let r = LifecycleStore { map: HashMap::new() };
        proof {
            assert(r@ =~= Map::<u128, LifecycleSpec>::empty());
        }
        r
    }

    /// Stores a record under its own identifier, silently overwriting any
    /// record that already used that identifier.
    pub fn insert(&mut self, lc: Lifecycle)
        ensures
            final(self)@ == old(self)@.insert(lc@.id, lc@),
            old(self).wf() && lc@.wf() ==> final(self).wf(),
    {
        let ghost pre = self@;
        let id = lc.id;
        self.map.insert(id, lc);
        proof {
            assert(self@ =~= pre.insert(id, lc@));
        }
    }

    /// Fetches a deep copy of a record.
    pub fn get(&self, id: u128) -> (r: Option<Lifecycle>)
        ensures
            match r {
                Some(lc) => self@.contains_key(id) && lc@ == self@[id],
                None => !self@.contains_key(id),
            },
    {
        match self.map.get(&id) {
            Some(lc) => Some(lc.duplicate()),
            None => None,
        }
    }

    /// Replaces one stage record whole and bumps the lifecycle's update
    /// stamp; every other stage and field is left untouched. Reports
    /// not-found for an unknown identifier and out-of-range for a stage
    /// index at or past the stage count, mutating nothing in either case.
    pub fn replace_stage(
        &mut self,
        id: u128,
        stage_index: usize,
        record: StageImage,
        now: i64,
    ) -> (r: Result<Lifecycle, LookupError>)
        ensures
            match r {
                Ok(lc) => {
                    &&& old(self)@.contains_key(id)
                    &&& (stage_index as int) < old(self)@[id].stages.len()
                    &&& lc@ == stage_replaced(
                        old(self)@[id],
                        stage_index as int,
                        record@,
                        now as int,
                    )
                    &&& final(self)@ == old(self)@.insert(id, lc@)
                },
                Err(LookupError::NotFound) => {
                    &&& !old(self)@.contains_key(id)
                    &&& final(self)@ == old(self)@
                },
                Err(LookupError::OutOfRange) => {
                    &&& old(self)@.contains_key(id)
                    &&& (stage_index as int) >= old(self)@[id].stages.len()
                    &&& final(self)@ == old(self)@
                },
            },
            old(self).wf() && record@.wf() ==> final(self).wf(),
    {
        let found = match self.map.get(&id) {
            Some(lc) => Some(lc.duplicate()),
            None => None,
        };
        match found {
            None => Err(LookupError::NotFound),
            Some(mut updated) => {
                if stage_index >= updated.stages.len() {
                    return Err(LookupError::OutOfRange);
                }
                let record_stamp = record.last_updated;
                updated.stages.set(stage_index, record);
                updated.updated_at = max_i64(updated.updated_at, max_i64(record_stamp, now));
                let result = updated.duplicate();
                let ghost pre = self@;
                self.map.insert(id, updated);
                proof {
                    assert(result@.stages =~= pre[id].stages.update(
                        stage_index as int,
                        record@,
                    ));
                    assert(result@ == stage_replaced(pre[id], stage_index as int, record@, now as int));
                    assert(self@ =~= pre.insert(id, result@));
                }
                Ok(result)
            },
        }
    }

    /// Rewrites one stage's prompt and image, stamps that stage, and bumps
    /// the lifecycle's update stamp; the stage's name and description and
    /// every other stage and field are left untouched. Reports not-found and
    /// out-of-range as `replace_stage` does, mutating nothing.
    pub fn apply_prompt_image(
        &mut self,
        id: u128,
        stage_index: usize,
        new_prompt: String,
        new_image: String,
        now: i64,
    ) -> (r: Result<Lifecycle, LookupError>)
        ensures
            match r {
                Ok(lc) => {
                    &&& old(self)@.contains_key(id)
                    &&& (stage_index as int) < old(self)@[id].stages.len()
                    &&& lc@ == prompt_image_applied(
                        old(self)@[id],
                        stage_index as int,
                        new_prompt@,
                        new_image@,
                        now as int,
                    )
                    &&& final(self)@ == old(self)@.insert(id, lc@)
                },
                Err(LookupError::NotFound) => {
                    &&& !old(self)@.contains_key(id)
                    &&& final(self)@ == old(self)@
                },
                Err(LookupError::OutOfRange) => {
                    &&& old(self)@.contains_key(id)
                    &&& (stage_index as int) >= old(self)@[id].stages.len()
                    &&& final(self)@ == old(self)@
                },
            },
            old(self).wf() && new_image@.len() > 0 ==> final(self).wf(),
    {
        let found = match self.map.get(&id) {
            Some(lc) => Some(lc.duplicate()),
            None => None,
        };
        match found {
            None => Err(LookupError::NotFound),
            Some(mut updated) => {
                if stage_index >= updated.stages.len() {
                    return Err(LookupError::OutOfRange);
                }
                let name = updated.stages[stage_index].stage_name.clone();
                let description = updated.stages[stage_index].description.clone();
                let stamp = updated.stages[stage_index].last_updated;
                let new_stage = StageImage {
                    stage_name: name,
                    prompt: new_prompt,
                    description,
                    image_base64: Some(new_image),
                    last_updated: now,
                };
                updated.stages.set(stage_index, new_stage);
                updated.updated_at = max_i64(updated.updated_at, now);
                let result = updated.duplicate();
                let ghost pre = self@;
                self.map.insert(id, updated);
                proof {
                    assert(result@.stages =~= prompt_image_applied(
                        pre[id],
                        stage_index as int,
                        new_prompt@,
                        new_image@,
                        now as int,
                    ).stages);
                    assert(result@ == prompt_image_applied(
                        pre[id],
                        stage_index as int,
                        new_prompt@,
                        new_image@,
                        now as int,
                    ));
                    assert(self@ =~= pre.insert(id, result@));
                }
                Ok(result)
            },
        }
    }
}

} // verus!
