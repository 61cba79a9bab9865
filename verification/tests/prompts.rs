use base64::Engine;
use lifecycle_storyboard::gemini::{
    first_image_part, first_text_part, GeminiClient, GeminiPart, GenOutcome,
};
use lifecycle_storyboard::models::GeminiError;
use lifecycle_storyboard::text::{eq_str, join_all, str_contains, trim_str};

fn decoded_svg(placeholder: &str) -> String {
    let bytes = base64::engine::general_purpose::STANDARD
        .decode(placeholder)
        .expect("placeholder must be valid base64");
    String::from_utf8(bytes).expect("placeholder must decode to UTF-8 text")
}

#[test]
fn build_stage_prompt_is_deterministic() {
    let constraints = vec!["low-carbon".to_string(), "recyclable".to_string()];
    let a = GeminiClient::build_stage_prompt("wooden chair", "Usage", &constraints);
    let b = GeminiClient::build_stage_prompt("wooden chair", "Usage", &constraints);
    assert_eq!(a, b);
}

#[test]
fn build_stage_prompt_contains_inputs_verbatim() {
    let constraints = vec!["low-carbon".to_string()];
    let p = GeminiClient::build_stage_prompt("a 2-seat aluminium kayak", "Manufacturing", &constraints);
    assert!(p.contains("a 2-seat aluminium kayak"));
    assert!(p.contains("Manufacturing"));
    assert!(p.contains("Sustainability focus: low-carbon."));
}

#[test]
fn build_stage_prompt_exact_without_constraints() {
    let p = GeminiClient::build_stage_prompt("wooden chair", "Usage", &Vec::new());
    assert_eq!(
        p,
        "High-quality infographic style depiction of the Usage stage in the lifecycle of: \
         wooden chair.  Show realistic materials, clean labeling, neutral background, vector \
         style clarity, no text over image."
    );
}

#[test]
fn build_stage_prompt_exact_with_constraints() {
    let constraints = vec!["low-carbon".to_string(), "recyclable".to_string()];
    let p = GeminiClient::build_stage_prompt("wooden chair", "Distribution", &constraints);
    assert_eq!(
        p,
        "High-quality infographic style depiction of the Distribution stage in the lifecycle \
         of: wooden chair. Sustainability focus: low-carbon, recyclable. Show realistic \
         materials, clean labeling, neutral background, vector style clarity, no text over image."
    );
}

#[test]
fn build_description_prompt_mentions_paragraph_structure() {
    let p = GeminiClient::build_description_prompt("wooden chair", "Usage", &Vec::new());
    assert!(p.contains("3-paragraph"));
    assert!(p.contains("Usage stage in the lifecycle of wooden chair."));
    let with = GeminiClient::build_description_prompt(
        "wooden chair",
        "Usage",
        &vec!["recyclable".to_string()],
    );
    assert!(with.contains("wooden chair with focus on recyclable."));
}

#[test]
fn placeholder_is_deterministic_and_validly_encoded() {
    let client = GeminiClient::new("DEMO_KEY".to_string());
    let a = client.generate_placeholder_image("some prompt");
    let b = client.generate_placeholder_image("some prompt");
    assert_eq!(a, b);
    assert!(!a.is_empty());
    let svg = decoded_svg(&a);
    assert!(svg.starts_with("<svg"));
    assert!(svg.ends_with("</svg>"));
}

#[test]
fn placeholder_title_tracks_stage_names() {
    let client = GeminiClient::new("DEMO_KEY".to_string());
    let raw = decoded_svg(&client.generate_placeholder_image("picture of the Raw Materials stage"));
    assert!(raw.contains("🌱 Raw Materials"));
    let man = decoded_svg(&client.generate_placeholder_image("picture of the Manufacturing stage"));
    assert!(man.contains("🏭 Manufacturing"));
    let eol = decoded_svg(&client.generate_placeholder_image("the End-of-Life moment"));
    assert!(eol.contains("♻️ Recycling"));
    let other = decoded_svg(&client.generate_placeholder_image("something unrelated"));
    assert!(other.contains("📦 Lifecycle Stage"));
    assert_ne!(raw, man);
}

#[test]
fn placeholder_palette_is_indexed_by_prompt_byte_length() {
    let client = GeminiClient::new("DEMO_KEY".to_string());
    // Zero bytes -> first palette colour; one byte -> second.
    let c0 = decoded_svg(&client.generate_placeholder_image(""));
    assert!(c0.contains("#3B82F6"));
    let c1 = decoded_svg(&client.generate_placeholder_image("x"));
    assert!(c1.contains("#EF4444"));
    let c7 = decoded_svg(&client.generate_placeholder_image("seven77"));
    assert!(c7.contains("#10B981"));
    // One two-byte character counts as two bytes, not one.
    let c2 = decoded_svg(&client.generate_placeholder_image("é"));
    assert!(c2.contains("#10B981"));
}

#[test]
fn generate_image_returns_content_unchanged_on_success() {
    let client = GeminiClient::new("key".to_string());
    let img = client.generate_image("prompt", GenOutcome::Produced("iVBORw0KGgo".to_string()));
    assert_eq!(img, "iVBORw0KGgo");
}

#[test]
fn generate_image_substitutes_placeholder_on_failure() {
    let client = GeminiClient::new("key".to_string());
    let failed = client.generate_image(
        "prompt with Distribution inside",
        GenOutcome::Failed(GeminiError::Http("status=500 boom".to_string())),
    );
    let expected = client.generate_placeholder_image("prompt with Distribution inside");
    assert_eq!(failed, expected);
    assert!(!failed.is_empty());
    let empty_success = client.generate_image(
        "prompt with Distribution inside",
        GenOutcome::Produced(String::new()),
    );
    assert_eq!(empty_success, expected);
}

#[test]
fn generate_text_trims_and_propagates_errors() {
    let client = GeminiClient::new("key".to_string());
    let ok = client.generate_text(GenOutcome::Produced("  hello world \n".to_string()));
    assert_eq!(ok.unwrap(), "hello world");
    let demo = client.generate_text(GenOutcome::NotAttempted);
    assert_eq!(
        demo.unwrap(),
        "Demo description: This stage represents an important part of the product lifecycle \
         with environmental considerations."
    );
    let err = client.generate_text(GenOutcome::Failed(GeminiError::Other("parse error".into())));
    match err {
        Err(e) => assert_eq!(e.describe(), "Other: parse error"),
        Ok(_) => panic!("failure outcome must propagate as an error"),
    }
    let http = client.generate_text(GenOutcome::Failed(GeminiError::Http("status=500".into())));
    match http {
        Err(e) => assert_eq!(e.describe(), "HTTP error: status=500"),
        Ok(_) => panic!("failure outcome must propagate as an error"),
    }
}

#[test]
fn stage_description_fallback_is_curated_and_clean() {
    let client = GeminiClient::new("key".to_string());
    let known = [
        "Raw Materials",
        "Manufacturing",
        "Distribution",
        "Usage",
        "End-of-Life / Recycling",
    ];
    for stage in known {
        let d = client.generate_stage_description(
            "wooden chair",
            stage,
            GenOutcome::Failed(GeminiError::Http("status=503 very noisy error".to_string())),
        );
        assert!(!d.is_empty());
        assert!(!d.contains("very noisy error"));
        assert!(!d.contains("status=503"));
        assert!(d.contains("wooden chair"));
        assert_eq!(d.matches("\n\n").count(), 2, "three paragraphs expected");
    }
}

#[test]
fn stage_description_generic_fallback_for_unknown_stage() {
    let client = GeminiClient::new("key".to_string());
    let d = client.generate_stage_description(
        "wooden chair",
        "Refurbishment",
        GenOutcome::Failed(GeminiError::Other("x".into())),
    );
    assert!(d.starts_with(
        "This stage for wooden chair encompasses key operational processes with relevant \
         sustainability considerations."
    ));
}

#[test]
fn stage_description_failure_is_independent_of_the_error() {
    let client = GeminiClient::new("key".to_string());
    let a = client.generate_stage_description(
        "lamp",
        "Usage",
        GenOutcome::Failed(GeminiError::Http("one".into())),
    );
    let b = client.generate_stage_description(
        "lamp",
        "Usage",
        GenOutcome::Failed(GeminiError::Other("another".into())),
    );
    assert_eq!(a, b);
}

#[test]
fn stage_description_uses_trimmed_model_text() {
    let client = GeminiClient::new("key".to_string());
    let d = client.generate_stage_description(
        "lamp",
        "Usage",
        GenOutcome::Produced("  A real description.  ".to_string()),
    );
    assert_eq!(d, "A real description.");
    let blank = client.generate_stage_description(
        "lamp",
        "Usage",
        GenOutcome::Produced("   \n\t ".to_string()),
    );
    assert!(blank.starts_with("The usage phase covers how end users interact with lamp"));
}

#[test]
fn is_demo_detects_the_demo_credential() {
    assert!(GeminiClient::new("DEMO_KEY".to_string()).is_demo());
    assert!(!GeminiClient::new("real-key".to_string()).is_demo());
}

#[test]
fn response_part_scans_take_the_first_of_each_kind() {
    let parts = vec![
        GeminiPart::Other,
        GeminiPart::Text("first text".to_string()),
        GeminiPart::InlineImage("AAAA".to_string()),
        GeminiPart::Text("second text".to_string()),
        GeminiPart::InlineImage("BBBB".to_string()),
    ];
    assert_eq!(first_image_part(&parts).as_deref(), Some("AAAA"));
    assert_eq!(first_text_part(&parts).as_deref(), Some("first text"));
    let no_image = vec![GeminiPart::Other, GeminiPart::Text("t".to_string())];
    assert!(first_image_part(&no_image).is_none());
    assert!(first_text_part(&Vec::new()).is_none());
}

#[test]
fn text_helpers_behave_like_their_specs() {
    assert!(str_contains("hello world", "lo wo"));
    assert!(str_contains("hello", ""));
    assert!(!str_contains("hello", "world"));
    assert!(!str_contains("ab", "abc"));
    assert!(eq_str("abc", "abc"));
    assert!(!eq_str("abc", "abd"));
    assert!(!eq_str("abc", "ab"));
    assert_eq!(trim_str("  padded \t\n"), "padded");
    assert_eq!(trim_str("   "), "");
    assert_eq!(trim_str("no-space"), "no-space");
    // The full Unicode white-space set is stripped, as str::trim strips it.
    assert_eq!(trim_str("\u{0C}text\u{A0}\u{2028}"), "text");
    assert_eq!("\u{0C}text\u{A0}\u{2028}".trim(), trim_str("\u{0C}text\u{A0}\u{2028}"));
    let parts = vec!["a".to_string(), "b".to_string(), "c".to_string()];
    assert_eq!(join_all(&parts, ", "), "a, b, c");
    assert_eq!(join_all(&vec!["x".to_string()], ", "), "x");
    assert_eq!(join_all(&Vec::new(), ", "), "");
}
