use vstd::prelude::*;
use vstd::rwlock::{RwLock, RwLockPredicate};

use crate::gemini::{
    description_result, image_result, stage_prompt_spec, GeminiClient, GenOutcome,
};
use crate::models::{GenerateRequest, Lifecycle, LookupError, StageImage};
use crate::store::LifecycleStore;
use crate::workflows::{
    create_lifecycle_skeleton, generate_lifecycle, generate_stage_image, get_lifecycle,
    regenerate_prompt, regenerate_stage, spec_constraints, spec_stage_names, stage_context,
};

verus! {

/// The lock invariant: whatever store sits in the lock is well formed.
pub struct StorePred {}

impl RwLockPredicate<LifecycleStore> for StorePred {
    open spec fn inv(self, v: LifecycleStore) -> bool {
        v.wf()
    }
}

/// The store behind a shared-exclusive lock, as concurrent workflows use
/// it: reads and writes each hold the lock only for one in-memory store
/// operation, never across an external call. Each operation is atomic;
/// two interleaved read-generate-write sequences race by last-write-wins,
/// which the design accepts.
pub struct SharedStore {
    lock: RwLock<LifecycleStore, StorePred>,
}

impl SharedStore {
    pub fn new() -> SharedStore {
        SharedStore { lock: RwLock::new(LifecycleStore::new(), Ghost(StorePred {})) }
    }

    /// Create-skeleton workflow under the lock: one exclusive acquisition
    /// for the insert; no external call is involved at all.
    pub fn create_skeleton(&self, body: &GenerateRequest) -> (r: Lifecycle)
        ensures
            r@.product == body.product_description@,
            r@.constraints == spec_constraints(*body),
            r@.stages.len() == spec_stage_names(*body).len(),
            forall|i: int|
                0 <= i < r@.stages.len() ==> {
                    &&& (#[trigger] r@.stages[i]).name == spec_stage_names(*body)[i]
                    &&& r@.stages[i].prompt == stage_prompt_spec(
                        body.product_description@,
                        spec_stage_names(*body)[i],
                        spec_constraints(*body),
                    )
                    &&& r@.stages[i].description == crate::workflows::pending_description()
                    &&& r@.stages[i].image is None
                    &&& r@.stages[i].last_updated == r@.created_at
                },
            r@.updated_at == r@.created_at,
            r@.wf(),
    {
        let (mut store, handle) = self.lock.acquire_write();
        let r = create_lifecycle_skeleton(&mut store, body);
        handle.release_write(store);
        r
    }

    /// Create-with-content workflow under the lock: the stages were already
    /// settled from the transport outcomes; the lock is taken exclusively
    /// once, for the insert alone.
    pub fn create_full(
        &self,
        gemini: &GeminiClient,
        body: &GenerateRequest,
        outcomes: Vec<(GenOutcome, GenOutcome)>,
    ) -> (r: Lifecycle)
        requires
            outcomes@.len() == spec_stage_names(*body).len(),
        ensures
            r@.product == body.product_description@,
            r@.constraints == spec_constraints(*body),
            r@.stages.len() == spec_stage_names(*body).len(),
            forall|i: int|
                0 <= i < r@.stages.len() ==> {
                    &&& (#[trigger] r@.stages[i]).name == spec_stage_names(*body)[i]
                    &&& r@.stages[i].prompt == stage_prompt_spec(
                        body.product_description@,
                        spec_stage_names(*body)[i],
                        spec_constraints(*body),
                    )
                    &&& r@.stages[i].image == Some(
                        image_result(r@.stages[i].prompt, outcomes@[i].0),
                    )
                    &&& r@.stages[i].description == description_result(
                        body.product_description@,
                        spec_stage_names(*body)[i],
                        outcomes@[i].1,
                    )
                    &&& r@.stages[i].description.len() > 0
                    &&& r@.stages[i].wf()
                },
            r@.updated_at == r@.created_at,
            r@.wf(),
    {
        let (mut store, handle) = self.lock.acquire_write();
        let r = generate_lifecycle(&mut store, gemini, body, outcomes);
        handle.release_write(store);
        r
    }

    /// Raw fetch under a read lock: a deep copy, never a handle into the
    /// store.
    pub fn get_copy(&self, id: u128) -> (r: Option<Lifecycle>)
        ensures
            match r {
                Some(lc) => lc@.wf(),
                None => true,
            },
    {
        let read_handle = self.lock.acquire_read();
        let r = get_lifecycle(read_handle.borrow(), id);
        read_handle.release_read();
        r
    }

    /// Read phase of the regenerate-image workflow, under a read lock that
    /// is released before any generation starts.
    pub fn read_stage_context(&self, id: u128, stage_index: usize) -> Result<
        (String, String, Vec<String>),
        LookupError,
    > {
        let read_handle = self.lock.acquire_read();
        let r = stage_context(read_handle.borrow(), id, stage_index);
        read_handle.release_read();
        r
    }

    /// Read phase of the regenerate-with-instruction workflow, under a read
    /// lock that is released before the image call starts. Whatever prompt
    /// was stored at read time, the result ends with the literal
    /// modification clause followed by the instruction.
    pub fn read_regenerate_prompt(&self, id: u128, stage_index: usize, edit_instruction: &str) -> (r:
        Result<String, LookupError>)
        ensures
            match r {
                Ok(p) => {
                    let clause = " Modify to: "@ + edit_instruction@;
                    &&& p@.len() >= clause.len()
                    &&& p@.subrange(p@.len() - clause.len(), p@.len() as int) == clause
                },
                Err(_) => true,
            },
    {
        let read_handle = self.lock.acquire_read();
        let r = regenerate_prompt(read_handle.borrow(), id, stage_index, edit_instruction);
        read_handle.release_read();
        proof {
            if r is Ok {
                let clause = " Modify to: "@ + edit_instruction@;
                assert(r->Ok_0@.subrange(
                    r->Ok_0@.len() - clause.len(),
                    r->Ok_0@.len() as int,
                ) =~= clause);
            }
        }
        r
    }

    /// Write phase of the regenerate-with-instruction workflow: one
    /// exclusive acquisition for the write-back. The returned copy shows the
    /// new prompt and image in place and an update stamp covering the
    /// stage's own.
    pub fn apply_regenerate(
        &self,
        id: u128,
        stage_index: usize,
        new_prompt: String,
        new_image: String,
    ) -> (r: Result<Lifecycle, LookupError>)
        requires
            new_image@.len() > 0,
        ensures
            match r {
                Ok(lc) => {
                    &&& lc@.wf()
                    &&& (stage_index as int) < lc@.stages.len()
                    &&& lc@.stages[stage_index as int].prompt == new_prompt@
                    &&& lc@.stages[stage_index as int].image == Some(new_image@)
                    &&& lc@.updated_at >= lc@.stages[stage_index as int].last_updated
                },
                Err(_) => true,
            },
    {
        let (mut store, handle) = self.lock.acquire_write();
        let r = regenerate_stage(&mut store, id, stage_index, new_prompt, new_image);
        handle.release_write(store);
        r
    }

    /// Regenerate-image workflow against the current store state: the
    /// returned record carries the image settled from the transport outcome
    /// for its own prompt, and only its slot was rewritten.
    pub fn regenerate_image(
        &self,
        gemini: &GeminiClient,
        id: u128,
        stage_index: usize,
        img_outcome: GenOutcome,
        txt_outcome: GenOutcome,
    ) -> (r: Result<StageImage, LookupError>)
        ensures
            match r {
                Ok(st) => {
                    &&& st@.wf()
                    &&& st@.image == Some(image_result(st@.prompt, img_outcome))
                    &&& st@.description.len() > 0
                },
                Err(_) => true,
            },
    {
        let (mut store, handle) = self.lock.acquire_write();
        let r = generate_stage_image(&mut store, gemini, id, stage_index, img_outcome, txt_outcome);
        handle.release_write(store);
        r
    }
}

/// Everything a request handler needs: the shared store and the immutable
/// client configuration.
pub struct AppState {
    pub store: SharedStore,
    pub gemini: GeminiClient,
}

} // verus!
