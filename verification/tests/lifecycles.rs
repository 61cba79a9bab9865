use lifecycle_storyboard::gemini::{GeminiClient, GenOutcome};
use lifecycle_storyboard::models::{GeminiError, GenerateRequest, LookupError};
use lifecycle_storyboard::store::LifecycleStore;
use lifecycle_storyboard::workflows::{
    create_lifecycle_skeleton, default_stages, generate_lifecycle, generate_stage_image,
    get_lifecycle, regenerate_prompt, regenerate_stage,
};

fn request(product: &str) -> GenerateRequest {
    GenerateRequest {
        product_description: product.to_string(),
        constraints: None,
        stages: None,
    }
}

fn failed_pair() -> (GenOutcome, GenOutcome) {
    (
        GenOutcome::Failed(GeminiError::Http("status=500".to_string())),
        GenOutcome::Failed(GeminiError::Http("status=500".to_string())),
    )
}

#[test]
fn default_stages_are_the_five_canonical_names() {
    let names = default_stages();
    assert_eq!(
        names,
        vec![
            "Raw Materials",
            "Manufacturing",
            "Distribution",
            "Usage",
            "End-of-Life / Recycling"
        ]
    );
}

#[test]
fn skeleton_then_get_has_pending_stages_and_no_images() {
    let mut store = LifecycleStore::new();
    let body = request("wooden chair");
    let created = create_lifecycle_skeleton(&mut store, &body);
    let fetched = get_lifecycle(&store, created.id).expect("just created");
    assert_eq!(fetched.stages.len(), 5);
    assert_eq!(fetched.created_at, fetched.updated_at);
    for stage in &fetched.stages {
        assert!(stage.image_base64.is_none());
        assert_eq!(stage.description, "Generating description...");
        assert!(stage.prompt.contains("wooden chair"));
        assert!(stage.prompt.contains(&stage.stage_name));
    }
}

#[test]
fn skeleton_respects_custom_stage_names() {
    let mut store = LifecycleStore::new();
    let body = GenerateRequest {
        product_description: "lamp".to_string(),
        constraints: Some(vec!["recyclable".to_string()]),
        stages: Some(vec!["Design".to_string(), "Assembly".to_string()]),
    };
    let created = create_lifecycle_skeleton(&mut store, &body);
    assert_eq!(created.stages.len(), 2);
    assert_eq!(created.stages[0].stage_name, "Design");
    assert_eq!(created.stages[1].stage_name, "Assembly");
    assert_eq!(created.constraints, vec!["recyclable".to_string()]);
    assert!(created.stages[0].prompt.contains("Sustainability focus: recyclable."));
}

#[test]
fn create_full_scenario_wooden_chair_default_stages() {
    let mut store = LifecycleStore::new();
    let gemini = GeminiClient::new("DEMO_KEY".to_string());
    let body = request("wooden chair");
    let outcomes = vec![
        (GenOutcome::NotAttempted, GenOutcome::NotAttempted),
        (GenOutcome::NotAttempted, GenOutcome::NotAttempted),
        (GenOutcome::NotAttempted, GenOutcome::NotAttempted),
        (GenOutcome::NotAttempted, GenOutcome::NotAttempted),
        (GenOutcome::NotAttempted, GenOutcome::NotAttempted),
    ];
    let created = generate_lifecycle(&mut store, &gemini, &body, outcomes);
    let expected = [
        "Raw Materials",
        "Manufacturing",
        "Distribution",
        "Usage",
        "End-of-Life / Recycling",
    ];
    assert_eq!(created.stages.len(), 5);
    for (stage, expected_name) in created.stages.iter().zip(expected.iter()) {
        assert_eq!(&stage.stage_name, expected_name);
        assert!(!stage.prompt.is_empty());
        assert!(stage.prompt.contains("wooden chair"));
    }
    assert_eq!(created.created_at, created.updated_at);
    let fetched = get_lifecycle(&store, created.id).expect("stored");
    assert_eq!(fetched.stages.len(), 5);
    for stage in &fetched.stages {
        let image = stage.image_base64.as_ref().expect("image present");
        assert!(!image.is_empty());
        assert!(!stage.description.is_empty());
    }
}

#[test]
fn create_full_absorbs_failures_into_fallback_content() {
    let mut store = LifecycleStore::new();
    let gemini = GeminiClient::new("real-key".to_string());
    let body = request("steel bottle");
    let outcomes = vec![failed_pair(), failed_pair(), failed_pair(), failed_pair(), failed_pair()];
    let created = generate_lifecycle(&mut store, &gemini, &body, outcomes);
    for stage in &created.stages {
        let image = stage.image_base64.as_ref().expect("placeholder substituted");
        assert!(!image.is_empty());
        assert!(!stage.description.is_empty());
        assert!(!stage.description.contains("status=500"));
    }
    assert!(created.stages[0]
        .description
        .starts_with("The raw materials stage for steel bottle"));
}

#[test]
fn regenerate_image_only_touches_one_stage() {
    let mut store = LifecycleStore::new();
    let gemini = GeminiClient::new("real-key".to_string());
    let body = request("wooden chair");
    let created = create_lifecycle_skeleton(&mut store, &body);
    let before = get_lifecycle(&store, created.id).expect("stored");
    let (img_o, txt_o) = failed_pair();
    let record = generate_stage_image(&mut store, &gemini, created.id, 1, img_o, txt_o)
        .expect("valid id and index");
    assert_eq!(record.stage_name, "Manufacturing");
    assert!(record.image_base64.as_ref().is_some_and(|i| !i.is_empty()));
    let after = get_lifecycle(&store, created.id).expect("still stored");
    assert_eq!(after.product_description, before.product_description);
    assert_eq!(after.constraints, before.constraints);
    assert_eq!(after.created_at, before.created_at);
    assert!(after.updated_at >= after.stages[1].last_updated);
    for i in [0usize, 2, 3, 4] {
        assert_eq!(after.stages[i].stage_name, before.stages[i].stage_name);
        assert_eq!(after.stages[i].prompt, before.stages[i].prompt);
        assert_eq!(after.stages[i].description, before.stages[i].description);
        assert!(after.stages[i].image_base64.is_none());
    }
    assert_eq!(after.stages[1].description, record.description);
    assert_eq!(after.stages[1].prompt, record.prompt);
    assert_eq!(
        after.stages[1].image_base64.as_deref(),
        record.image_base64.as_deref()
    );
}

#[test]
fn regenerate_with_instruction_changes_prompt_and_image_only() {
    let mut store = LifecycleStore::new();
    let gemini = GeminiClient::new("real-key".to_string());
    let body = request("wooden chair");
    let created = create_lifecycle_skeleton(&mut store, &body);
    let old_prompt = created.stages[2].prompt.clone();
    let new_prompt = regenerate_prompt(&store, created.id, 2, "make it blue").expect("valid");
    assert_eq!(new_prompt, format!("{} Modify to: {}", old_prompt, "make it blue"));
    let new_image = gemini.generate_image(
        &new_prompt,
        GenOutcome::Failed(GeminiError::Other("down".into())),
    );
    let updated = regenerate_stage(&mut store, created.id, 2, new_prompt.clone(), new_image.clone())
        .expect("valid");
    assert_eq!(updated.stages[2].prompt, new_prompt);
    assert_eq!(updated.stages[2].image_base64.as_deref(), Some(new_image.as_str()));
    assert_eq!(updated.stages[2].description, created.stages[2].description);
    assert_eq!(updated.stages[2].stage_name, created.stages[2].stage_name);
    assert!(updated.updated_at >= updated.stages[2].last_updated);
    for i in [0usize, 1, 3, 4] {
        assert_eq!(updated.stages[i].prompt, created.stages[i].prompt);
    }
}

#[test]
fn unknown_id_and_bad_index_report_errors_without_mutation() {
    let mut store = LifecycleStore::new();
    let gemini = GeminiClient::new("real-key".to_string());
    let body = request("wooden chair");
    let created = create_lifecycle_skeleton(&mut store, &body);
    let bogus_id = created.id.wrapping_add(1);

    let (img_o, txt_o) = failed_pair();
    let missing = generate_stage_image(&mut store, &gemini, bogus_id, 0, img_o, txt_o);
    assert!(matches!(missing, Err(LookupError::NotFound)));

    let (img_o, txt_o) = failed_pair();
    let out_of_range = generate_stage_image(&mut store, &gemini, created.id, 5, img_o, txt_o);
    assert!(matches!(out_of_range, Err(LookupError::OutOfRange)));

    let miss2 = regenerate_stage(&mut store, bogus_id, 0, "p".to_string(), "img".to_string());
    assert!(matches!(miss2, Err(LookupError::NotFound)));
    let oob2 = regenerate_stage(&mut store, created.id, 9, "p".to_string(), "img".to_string());
    assert!(matches!(oob2, Err(LookupError::OutOfRange)));
    assert!(matches!(
        regenerate_prompt(&store, bogus_id, 0, "x"),
        Err(LookupError::NotFound)
    ));
    assert!(matches!(
        regenerate_prompt(&store, created.id, 5, "x"),
        Err(LookupError::OutOfRange)
    ));

    let after = get_lifecycle(&store, created.id).expect("still there");
    assert_eq!(after.updated_at, created.updated_at);
    for (a, b) in after.stages.iter().zip(created.stages.iter()) {
        assert_eq!(a.prompt, b.prompt);
        assert_eq!(a.description, b.description);
        assert!(a.image_base64.is_none() && b.image_base64.is_none());
    }
    assert!(get_lifecycle(&store, bogus_id).is_none());
}

#[test]
fn store_insert_overwrites_same_identifier() {
    let mut store = LifecycleStore::new();
    let body = request("wooden chair");
    let created = create_lifecycle_skeleton(&mut store, &body);
    let mut replacement = created.duplicate();
    replacement.product_description = "oak chair".to_string();
    store.insert(replacement);
    let fetched = get_lifecycle(&store, created.id).expect("there");
    assert_eq!(fetched.product_description, "oak chair");
}
