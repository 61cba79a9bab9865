use vstd::prelude::*;
use vstd::string::*;

use crate::gemini::{
    description_result, fresh_id, image_result, now_millis, stage_prompt_spec, GeminiClient,
    GenOutcome,
};
use crate::models::{
    stage_views, str_views, GenerateRequest, Lifecycle, LifecycleSpec, LookupError, StageImage,
    StageSpec,
};
use crate::store::LifecycleStore;

verus! {

/// The five stage names used when a request does not name its own.
pub open spec fn default_stage_names() -> Seq<Seq<char>> {
    seq![
        "Raw Materials"@,
        "Manufacturing"@,
        "Distribution"@,
        "Usage"@,
        "End-of-Life / Recycling"@,
    ]
}

/// The constraint set a request carries: its own, or none.
pub open spec fn spec_constraints(body: GenerateRequest) -> Seq<Seq<char>> {
    match body.constraints {
        Some(v) => str_views(v@),
        None => Seq::empty(),
    }
}

/// The stage names a request asks for: its own, or the default five.
pub open spec fn spec_stage_names(body: GenerateRequest) -> Seq<Seq<char>> {
    match body.stages {
        Some(v) => str_views(v@),
        None => default_stage_names(),
    }
}

/// The literal marker a skeleton stage carries until its description is
/// generated.
pub open spec fn pending_description() -> Seq<char> {
    "Generating description..."@
}

/// The default stage names, in presentation order.
pub fn default_stages() -> (r: Vec<&'static str>)
    ensures
        r@.map_values(|s: &'static str| s@) == default_stage_names(),
        r@.len() == 5,
{
    let mut r: Vec<&'static str> = Vec::new();
    r.push("Raw Materials");
    r.push("Manufacturing");
    r.push("Distribution");
    r.push("Usage");
    r.push("End-of-Life / Recycling");
    proof {
        assert(r@.map_values(|s: &'static str| s@) =~= default_stage_names());
    }
    r
}

/// A fresh vector holding copies of the given strings.
fn clone_strings(v: &Vec<String>) -> (r: Vec<String>)
    ensures
        str_views(r@) == str_views(v@),
{
    let mut r: Vec<String> = Vec::new();
    let mut i: usize = 0;
    while i < v.len()
        invariant
            i <= v.len(),
            r@.len() == i as int,
            forall|k: int| 0 <= k < i as int ==> #[trigger] r@[k]@ == v@[k]@,
        decreases v.len() - i,
    {
        r.push(v[i].clone());
        i += 1;
    }
    proof {
        assert(str_views(r@) =~= str_views(v@));
    }
    r
}

/// The request's constraint set, copied out (empty when absent).
fn resolve_constraints(body: &GenerateRequest) -> (r: Vec<String>)
    ensures
        str_views(r@) == spec_constraints(*body),
{
    match &body.constraints {
        Some(v) => clone_strings(v),
        None => {
            let r: Vec<String> = Vec::new();
            proof {
                assert(str_views(r@) =~= Seq::<Seq<char>>::empty());
            }
            r
        },
    }
}

/// The request's stage names, copied out (the default five when absent).
fn resolve_stage_names(body: &GenerateRequest) -> (r: Vec<String>)
    ensures
        str_views(r@) == spec_stage_names(*body),
{
    match &body.stages {
        Some(v) => clone_strings(v),
        None => {
            let mut r: Vec<String> = Vec::new();
            r.push("Raw Materials".to_owned());
            r.push("Manufacturing".to_owned());
            r.push("Distribution".to_owned());
            r.push("Usage".to_owned());
            r.push("End-of-Life / Recycling".to_owned());
            proof {
                assert(str_views(r@) =~= default_stage_names());
            }
            r
        },
    }
}

/// Create-skeleton workflow: a new lifecycle whose stages carry only the
/// derived prompt and the pending-description marker — no image, and no
/// external call at all. The record is stored and a copy returned.
pub fn create_lifecycle_skeleton(store: &mut LifecycleStore, body: &GenerateRequest) -> (r:
    Lifecycle)
    ensures
        final(store)@ == old(store)@.insert(r@.id, r@),
        r@.product == body.product_description@,
        r@.constraints == spec_constraints(*body),
        r@.stages.len() == spec_stage_names(*body).len(),
        forall|i: int|
            0 <= i < r@.stages.len() ==> {
                &&& (#[trigger] r@.stages[i]).name == spec_stage_names(*body)[i]
                &&& r@.stages[i].prompt == stage_prompt_spec(
                    body.product_description@,
                    spec_stage_names(*body)[i],
                    spec_constraints(*body),
                )
                &&& r@.stages[i].description == pending_description()
                &&& r@.stages[i].image is None
                &&& r@.stages[i].last_updated == r@.created_at
            },
        r@.updated_at == r@.created_at,
        r@.wf(),
        old(store).wf() ==> final(store).wf(),
{
    let id = fresh_id();
    let now = now_millis();
    let constraints = resolve_constraints(body);
    let names = resolve_stage_names(body);
    let mut stages: Vec<StageImage> = Vec::new();
    let mut i: usize = 0;
    while i < names.len()
        invariant
            i <= names.len(),
            str_views(names@) == spec_stage_names(*body),
            str_views(constraints@) == spec_constraints(*body),
            stages@.len() == i as int,
            forall|k: int|
                0 <= k < i as int ==> {
                    &&& (#[trigger] stage_views(stages@)[k]).name == spec_stage_names(*body)[k]
                    &&& stage_views(stages@)[k].prompt == stage_prompt_spec(
                        body.product_description@,
                        spec_stage_names(*body)[k],
                        spec_constraints(*body),
                    )
                    &&& stage_views(stages@)[k].description == pending_description()
                    &&& stage_views(stages@)[k].image is None
                    &&& stage_views(stages@)[k].last_updated == now as int
                },
        decreases names.len() - i,
    {
        let prompt = GeminiClient::build_stage_prompt(
            body.product_description.as_str(),
            names[i].as_str(),
            &constraints,
        );
        let st = StageImage {
            stage_name: names[i].clone(),
            prompt,
            description: "Generating description...".to_owned(),
            image_base64: None,
            last_updated: now,
        };
        let ghost pre_stages = stages@;
        stages.push(st);
        proof {
            crate::models::lemma_stage_views_push(pre_stages, st);
        }
        i += 1;
    }
    let lifecycle = Lifecycle {
        id,
        product_description: body.product_description.clone(),
        stages,
        created_at: now,
        updated_at: now,
        constraints,
    };
    let result = lifecycle.duplicate();
    store.insert(lifecycle);
    result
}

/// Create-with-content workflow: every stage is generated in order from the
/// per-stage transport outcomes (image and description for each), assembled
/// into a new lifecycle, stored, and a copy returned. Every stage ends up
/// with a present image and non-empty description, whatever the transport
/// reported.
pub fn generate_lifecycle(
    store: &mut LifecycleStore,
    gemini: &GeminiClient,
    body: &GenerateRequest,
    outcomes: Vec<(GenOutcome, GenOutcome)>,
) -> (r: Lifecycle)
    requires
        outcomes@.len() == spec_stage_names(*body).len(),
    ensures
        final(store)@ == old(store)@.insert(r@.id, r@),
        r@.product == body.product_description@,
        r@.constraints == spec_constraints(*body),
        r@.stages.len() == spec_stage_names(*body).len(),
        forall|i: int|
            0 <= i < r@.stages.len() ==> {
                &&& (#[trigger] r@.stages[i]).name == spec_stage_names(*body)[i]
                &&& r@.stages[i].prompt == stage_prompt_spec(
                    body.product_description@,
                    spec_stage_names(*body)[i],
                    spec_constraints(*body),
                )
                &&& r@.stages[i].image == Some(
                    image_result(r@.stages[i].prompt, outcomes@[i].0),
                )
                &&& r@.stages[i].description == description_result(
                    body.product_description@,
                    spec_stage_names(*body)[i],
                    outcomes@[i].1,
                )
                &&& r@.stages[i].description.len() > 0
                &&& r@.stages[i].wf()
            },
        r@.created_at == r@.updated_at,
        r@.wf(),
        old(store).wf() ==> final(store).wf(),
{
    let ghost all_outcomes = outcomes@;
    let mut outcomes = outcomes;
    let constraints = resolve_constraints(body);
    let names = resolve_stage_names(body);
    let mut stages: Vec<StageImage> = Vec::new();
    let mut i: usize = 0;
    while i < names.len()
        invariant
            i <= names.len(),
            str_views(names@) == spec_stage_names(*body),
            str_views(constraints@) == spec_constraints(*body),
            names@.len() == all_outcomes.len(),
            outcomes@ == all_outcomes.skip(i as int),
            stages@.len() == i as int,
            forall|k: int|
                0 <= k < i as int ==> {
                    &&& (#[trigger] stage_views(stages@)[k]).name == spec_stage_names(*body)[k]
                    &&& stage_views(stages@)[k].prompt == stage_prompt_spec(
                        body.product_description@,
                        spec_stage_names(*body)[k],
                        spec_constraints(*body),
                    )
                    &&& stage_views(stages@)[k].image == Some(
                        image_result(stage_views(stages@)[k].prompt, all_outcomes[k].0),
                    )
                    &&& stage_views(stages@)[k].description == description_result(
                        body.product_description@,
                        spec_stage_names(*body)[k],
                        all_outcomes[k].1,
                    )
                    &&& stage_views(stages@)[k].description.len() > 0
                    &&& stage_views(stages@)[k].wf()
                },
        decreases names.len() - i,
    {
        let pair = outcomes.remove(0);
        let (img_outcome, txt_outcome) = pair;
        let st = gemini.gen_stage_image(
            body.product_description.as_str(),
            names[i].as_str(),
            &constraints,
            img_outcome,
            txt_outcome,
        );
        let ghost pre_stages = stages@;
        stages.push(st);
        proof {
            crate::models::lemma_stage_views_push(pre_stages, st);
            assert(all_outcomes.skip(i as int)[0] == all_outcomes[i as int]);
            assert(all_outcomes.skip(i as int).subrange(
                1,
                all_outcomes.skip(i as int).len() as int,
            ) =~= all_outcomes.skip(i as int + 1));
        }
        i += 1;
    }
    let now = now_millis();
    let lifecycle = Lifecycle {
        id: fresh_id(),
        product_description: body.product_description.clone(),
        stages,
        created_at: now,
        updated_at: now,
        constraints,
    };
    let result = lifecycle.duplicate();
    store.insert(lifecycle);
    result
}

/// Raw fetch: a deep copy of the record, or nothing for an unknown
/// identifier.
pub fn get_lifecycle(store: &LifecycleStore, id: u128) -> (r: Option<Lifecycle>)
    ensures
        match r {
            Some(lc) => store@.contains_key(id) && lc@ == store@[id],
            None => !store@.contains_key(id),
        },
{
    store.get(id)
}

/// Read phase of the regenerate-with-instruction workflow: the stored
/// prompt for the stage with the literal modification clause appended. No
/// lock is to be held during the generation that follows.
pub fn regenerate_prompt(
    store: &LifecycleStore,
    id: u128,
    stage_index: usize,
    edit_instruction: &str,
) -> (r: Result<String, LookupError>)
    ensures
        match r {
            Ok(p) => {
                &&& store@.contains_key(id)
                &&& (stage_index as int) < store@[id].stages.len()
                &&& p@ == store@[id].stages[stage_index as int].prompt + " Modify to: "@
                    + edit_instruction@
            },
            Err(LookupError::NotFound) => !store@.contains_key(id),
            Err(LookupError::OutOfRange) => {
                &&& store@.contains_key(id)
                &&& (stage_index as int) >= store@[id].stages.len()
            },
        },
{
    match store.get(id) {
        None => Err(LookupError::NotFound),
        Some(lc) => {
            if stage_index >= lc.stages.len() {
                return Err(LookupError::OutOfRange);
            }
            let mut p = lc.stages[stage_index].prompt.clone();
            p.append(" Modify to: ");
            p.append(edit_instruction);
            Ok(p)
        },
    }
}

/// Write phase of the regenerate-with-instruction workflow: stores the new
/// prompt and image for the one stage — its description deliberately
/// untouched — stamps the stage, and bumps the lifecycle's update stamp.
/// Nothing is mutated when the identifier or index does not resolve.
pub fn regenerate_stage(
    store: &mut LifecycleStore,
    id: u128,
    stage_index: usize,
    new_prompt: String,
    new_image: String,
) -> (r: Result<Lifecycle, LookupError>)
    requires
        new_image@.len() > 0,
    ensures
        match r {
            Ok(lc) => {
                &&& old(store)@.contains_key(id)
                &&& (stage_index as int) < old(store)@[id].stages.len()
                &&& final(store)@ == old(store)@.insert(id, lc@)
                &&& lc@.stages == old(store)@[id].stages.update(
                    stage_index as int,
                    lc@.stages[stage_index as int],
                )
                &&& lc@.stages[stage_index as int].prompt == new_prompt@
                &&& lc@.stages[stage_index as int].image == Some(new_image@)
                &&& lc@.stages[stage_index as int].name == old(store)@[id].stages[stage_index as int].name
                &&& lc@.stages[stage_index as int].description == old(store)@[id].stages[stage_index as int].description
                &&& lc@.updated_at >= old(store)@[id].updated_at
                &&& lc@.updated_at >= lc@.stages[stage_index as int].last_updated
                &&& lc@.product == old(store)@[id].product
                &&& lc@.constraints == old(store)@[id].constraints
                &&& lc@.created_at == old(store)@[id].created_at
                &&& lc@.id == old(store)@[id].id
            },
            Err(LookupError::NotFound) => {
                &&& !old(store)@.contains_key(id)
                &&& final(store)@ == old(store)@
            },
            Err(LookupError::OutOfRange) => {
                &&& old(store)@.contains_key(id)
                &&& (stage_index as int) >= old(store)@[id].stages.len()
                &&& final(store)@ == old(store)@
            },
        },
        old(store).wf() ==> final(store).wf(),
{
    let now = now_millis();
    store.apply_prompt_image(id, stage_index, new_prompt, new_image, now)
}

/// Read phase of the regenerate-image workflow: the stage name, product
/// description and constraints needed to drive generation, copied out so no
/// lock is held during the external calls.
pub fn stage_context(store: &LifecycleStore, id: u128, stage_index: usize) -> (r: Result<
    (String, String, Vec<String>),
    LookupError,
>)
    ensures
        match r {
            Ok(ctx) => {
                &&& store@.contains_key(id)
                &&& (stage_index as int) < store@[id].stages.len()
                &&& ctx.0@ == store@[id].stages[stage_index as int].name
                &&& ctx.1@ == store@[id].product
                &&& str_views(ctx.2@) == store@[id].constraints
            },
            Err(LookupError::NotFound) => !store@.contains_key(id),
            Err(LookupError::OutOfRange) => {
                &&& store@.contains_key(id)
                &&& (stage_index as int) >= store@[id].stages.len()
            },
        },
{
    match store.get(id) {
        None => Err(LookupError::NotFound),
        Some(lc) => {
            if stage_index >= lc.stages.len() {
                return Err(LookupError::OutOfRange);
            }
            let name = lc.stages[stage_index].stage_name.clone();
            Ok((name, lc.product_description, lc.constraints))
        },
    }
}

/// Law: a create-skeleton followed immediately by a fetch of the new
/// identifier yields a lifecycle with exactly the requested number of
/// stages, each with no image and the literal pending-description marker.
/// The `requires` are what `create_lifecycle_skeleton` ensures of the store
/// and the returned record; the fetched record is what `get_lifecycle`
/// returns for that identifier.
pub proof fn lemma_skeleton_then_get(
    pre: Map<u128, LifecycleSpec>,
    post: Map<u128, LifecycleSpec>,
    body: GenerateRequest,
    r: LifecycleSpec,
)
    requires
        post == pre.insert(r.id, r),
        r.stages.len() == spec_stage_names(body).len(),
        forall|i: int|
            0 <= i < r.stages.len() ==> (#[trigger] r.stages[i]).image is None
                && r.stages[i].description == pending_description(),
    ensures
        post.contains_key(r.id),
        post[r.id].stages.len() == spec_stage_names(body).len(),
        forall|i: int|
            0 <= i < post[r.id].stages.len() ==> (#[trigger] post[r.id].stages[i]).image is None
                && post[r.id].stages[i].description == pending_description(),
{
}

/// Law: a create-with-content followed immediately by a fetch of the new
/// identifier yields a lifecycle whose every stage carries a present,
/// non-empty image and a non-empty description, and whose update stamp
/// still equals its creation stamp. The `requires` are what
/// `generate_lifecycle` ensures of the store and the returned record.
pub proof fn lemma_create_full_then_get(
    pre: Map<u128, LifecycleSpec>,
    post: Map<u128, LifecycleSpec>,
    r: LifecycleSpec,
)
    requires
        post == pre.insert(r.id, r),
        forall|i: int|
            0 <= i < r.stages.len() ==> (#[trigger] r.stages[i]).image is Some && r.stages[i].wf()
                && r.stages[i].description.len() > 0,
        r.updated_at == r.created_at,
    ensures
        post.contains_key(r.id),
        post[r.id].updated_at == post[r.id].created_at,
        forall|i: int|
            0 <= i < post[r.id].stages.len() ==> {
                &&& (#[trigger] post[r.id].stages[i]).image is Some
                &&& post[r.id].stages[i].image->Some_0.len() > 0
                &&& post[r.id].stages[i].description.len() > 0
            },
{
}

/// Law: a regeneration that replaces stage `i` leaves every other stage,
/// and the product, constraints and creation stamp, exactly as they were.
/// The `requires` are what the regenerate workflows ensure of the record
/// they wrote back.
pub proof fn lemma_update_leaves_others(
    pre: LifecycleSpec,
    post: LifecycleSpec,
    i: int,
    st: StageSpec,
)
    requires
        0 <= i < pre.stages.len(),
        post.stages == pre.stages.update(i, st),
        post.product == pre.product,
        post.constraints == pre.constraints,
        post.created_at == pre.created_at,
    ensures
        post.stages.len() == pre.stages.len(),
        forall|j: int|
            0 <= j < pre.stages.len() && j != i ==> #[trigger] post.stages[j] == pre.stages[j],
{
}

/// Regenerate-image workflow: rebuilds one stage record whole from the
/// stored context and the two transport outcomes, writes it back into its
/// slot, bumps the lifecycle's update stamp, and returns the record. Only
/// that stage changes; unknown identifiers and out-of-range indices mutate
/// nothing.
pub fn generate_stage_image(
    store: &mut LifecycleStore,
    gemini: &GeminiClient,
    id: u128,
    stage_index: usize,
    img_outcome: GenOutcome,
    txt_outcome: GenOutcome,
) -> (r: Result<StageImage, LookupError>)
    ensures
        match r {
            Ok(st) => {
                &&& old(store)@.contains_key(id)
                &&& (stage_index as int) < old(store)@[id].stages.len()
                &&& st@.name == old(store)@[id].stages[stage_index as int].name
                &&& st@.prompt == stage_prompt_spec(
                    old(store)@[id].product,
                    st@.name,
                    old(store)@[id].constraints,
                )
                &&& st@.image == Some(image_result(st@.prompt, img_outcome))
                &&& st@.description == description_result(
                    old(store)@[id].product,
                    st@.name,
                    txt_outcome,
                )
                &&& st@.description.len() > 0
                &&& st@.wf()
                &&& final(store)@.contains_key(id)
                &&& final(store)@[id].stages == old(store)@[id].stages.update(
                    stage_index as int,
                    st@,
                )
                &&& final(store)@[id].updated_at >= old(store)@[id].updated_at
                &&& final(store)@[id].updated_at >= st@.last_updated
                &&& final(store)@[id].product == old(store)@[id].product
                &&& final(store)@[id].constraints == old(store)@[id].constraints
                &&& final(store)@[id].created_at == old(store)@[id].created_at
                &&& final(store)@[id].id == old(store)@[id].id
                &&& final(store)@.remove(id) == old(store)@.remove(id)
            },
            Err(LookupError::NotFound) => {
                &&& !old(store)@.contains_key(id)
                &&& final(store)@ == old(store)@
            },
            Err(LookupError::OutOfRange) => {
                &&& old(store)@.contains_key(id)
                &&& (stage_index as int) >= old(store)@[id].stages.len()
                &&& final(store)@ == old(store)@
            },
        },
        old(store).wf() ==> final(store).wf(),
{
    let ctx = match store.get(id) {
        None => {
            return Err(LookupError::NotFound);
        },
        Some(lc) => lc,
    };
    if stage_index >= ctx.stages.len() {
        return Err(LookupError::OutOfRange);
    }
    let stage_name = ctx.stages[stage_index].stage_name.clone();
    let record = gemini.gen_stage_image(
        ctx.product_description.as_str(),
        stage_name.as_str(),
        &ctx.constraints,
        img_outcome,
        txt_outcome,
    );
    let result = record.duplicate();
    let now = now_millis();
    match store.replace_stage(id, stage_index, record, now) {
        Ok(_) => {
            proof {
                assert(final(store)@.remove(id) =~= old(store)@.remove(id));
            }
            Ok(result)
        },
        // The identifier and index were validated against this same store
        // state, so the write-back cannot miss.
        Err(_) => vstd::pervasive::unreached(),
    }
}

} // verus!
