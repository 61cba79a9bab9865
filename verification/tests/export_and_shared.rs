use lifecycle_storyboard::gemini::{GeminiClient, GenOutcome};
use lifecycle_storyboard::models::{GeminiError, GenerateRequest, LookupError};
use lifecycle_storyboard::pdf::{generate_pdf_plan, truncate};
use lifecycle_storyboard::shared::{AppState, SharedStore};
use lifecycle_storyboard::store::LifecycleStore;
use lifecycle_storyboard::workflows::create_lifecycle_skeleton;

fn request(product: &str) -> GenerateRequest {
    GenerateRequest {
        product_description: product.to_string(),
        constraints: Some(vec!["low-carbon".to_string(), "recyclable".to_string()]),
        stages: None,
    }
}

#[test]
fn truncate_keeps_short_text_and_cuts_long_text() {
    assert_eq!(truncate("short", 10), "short");
    assert_eq!(truncate("exactly-10", 10), "exactly-10");
    assert_eq!(truncate("a long sentence", 6), "a long…");
    assert_eq!(truncate("héllo wörld", 4), "héll…");
}

#[test]
fn pdf_plan_lays_out_summary_and_stage_pages() {
    let mut store = LifecycleStore::new();
    let body = request("wooden chair");
    let created = create_lifecycle_skeleton(&mut store, &body);
    let plan = generate_pdf_plan(&created);
    assert_eq!(plan.title, "Lifecycle: wooden chair");
    assert_eq!(plan.pages.len(), 6);
    let summary = &plan.pages[0];
    assert_eq!(summary.items.len(), 4);
    assert_eq!(summary.items[0].text, "Product Lifecycle Storyboard");
    assert_eq!(summary.items[0].font_size, 20);
    assert_eq!(summary.items[1].text, "wooden chair");
    assert_eq!(summary.items[2].text, "Constraints: low-carbon, recyclable");
    assert_eq!(summary.items[3].text, "(Images not embedded in PDF preview MVP)");
    for (page, stage) in plan.pages.iter().skip(1).zip(created.stages.iter()) {
        assert_eq!(page.label, stage.stage_name);
        assert_eq!(page.items.len(), 2);
        assert_eq!(page.items[0].text, stage.stage_name);
        assert_eq!(page.items[0].font_size, 16);
        assert!(stage.prompt.starts_with(page.items[1].text.trim_end_matches("…")));
    }
}

#[test]
fn pdf_plan_without_constraints_has_three_summary_lines() {
    let mut store = LifecycleStore::new();
    let body = GenerateRequest {
        product_description: "lamp".to_string(),
        constraints: None,
        stages: None,
    };
    let created = create_lifecycle_skeleton(&mut store, &body);
    let plan = generate_pdf_plan(&created);
    assert_eq!(plan.pages[0].items.len(), 3);
    assert_eq!(plan.pages[0].items[2].text, "(Images not embedded in PDF preview MVP)");
}

#[test]
fn shared_store_runs_the_workflows_under_its_lock() {
    let state = AppState {
        store: SharedStore::new(),
        gemini: GeminiClient::new("DEMO_KEY".to_string()),
    };
    let body = request("wooden chair");
    let created = state.store.create_skeleton(&body);
    assert_eq!(created.stages.len(), 5);
    let fetched = state.store.get_copy(created.id).expect("stored");
    assert_eq!(fetched.stages.len(), 5);
    assert!(fetched.stages.iter().all(|s| s.image_base64.is_none()));

    let ctx = state.store.read_stage_context(created.id, 0).expect("valid");
    assert_eq!(ctx.0, "Raw Materials");
    assert_eq!(ctx.1, "wooden chair");
    assert_eq!(ctx.2, vec!["low-carbon".to_string(), "recyclable".to_string()]);

    let record = state
        .store
        .regenerate_image(
            &state.gemini,
            created.id,
            0,
            GenOutcome::NotAttempted,
            GenOutcome::NotAttempted,
        )
        .expect("valid");
    assert!(record.image_base64.is_some());

    let new_prompt = state
        .store
        .read_regenerate_prompt(created.id, 1, "make it darker")
        .expect("valid");
    assert!(new_prompt.ends_with(" Modify to: make it darker"));
    let image = state.gemini.generate_image(&new_prompt, GenOutcome::NotAttempted);
    let updated = state
        .store
        .apply_regenerate(created.id, 1, new_prompt.clone(), image.clone())
        .expect("valid");
    assert_eq!(updated.stages[1].prompt, new_prompt);
    assert_eq!(updated.stages[1].image_base64.as_deref(), Some(image.as_str()));
    assert!(updated.updated_at >= updated.stages[1].last_updated);

    assert!(matches!(
        state.store.read_stage_context(created.id, 9),
        Err(LookupError::OutOfRange)
    ));
    assert!(state.store.get_copy(created.id.wrapping_add(1)).is_none());
}

#[test]
fn shared_store_create_full_has_complete_stages() {
    let state = AppState {
        store: SharedStore::new(),
        gemini: GeminiClient::new("real-key".to_string()),
    };
    let body = request("steel bottle");
    let outcomes = (0..5)
        .map(|_| {
            (
                GenOutcome::Failed(GeminiError::Http("status=502".to_string())),
                GenOutcome::Failed(GeminiError::Other("no text".to_string())),
            )
        })
        .collect::<Vec<_>>();
    let created = state.store.create_full(&state.gemini, &body, outcomes);
    assert_eq!(created.created_at, created.updated_at);
    for stage in &created.stages {
        assert!(stage.image_base64.as_ref().is_some_and(|i| !i.is_empty()));
        assert!(!stage.description.is_empty());
    }
}
