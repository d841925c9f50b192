use zop::commands::{generated_sop_from_reply, greet, require_ai_config};
use zop::document::{GeneratedSop, SopStep};
use zop::records::{next_sort_order, reorder_positions, AiConfig};

#[test]
fn greeting_names_caller() {
    assert_eq!(greet("Ada"), "Hello, Ada! You've been greeted from Rust!");
    assert_eq!(greet(""), "Hello, ! You've been greeted from Rust!");
}

#[test]
fn stored_config_is_required() {
    let err = require_ai_config(None).unwrap_err();
    assert_eq!(err, "AI configuration not found. Please configure AI settings first.");
    let config = AiConfig {
        id: 1,
        base_url: "u".to_string(),
        api_key: "k".to_string(),
        model_name: "m".to_string(),
        created_at: "c".to_string(),
        updated_at: "d".to_string(),
    };
    assert_eq!(require_ai_config(Some(config.clone())), Ok(config));
}

#[test]
fn model_reply_becomes_document() {
    let reply = r#"{"title":"Tea","steps":[{"step_type":"start","label":"Start","content":null},{"step_type":"read","label":"Boil","content":"boil water"}]}"#;
    let doc = generated_sop_from_reply(Some(reply.to_string())).unwrap();
    assert_eq!(
        doc,
        GeneratedSop {
            title: "Tea".to_string(),
            steps: vec![
                SopStep { step_type: "start".to_string(), label: "Start".to_string(), content: None },
                SopStep {
                    step_type: "read".to_string(),
                    label: "Boil".to_string(),
                    content: Some("boil water".to_string()),
                },
            ],
        }
    );
}

#[test]
fn missing_model_reply_is_error() {
    assert_eq!(generated_sop_from_reply(None).unwrap_err(), "No response from AI");
}

#[test]
fn unreadable_model_reply_quotes_it() {
    let err = generated_sop_from_reply(Some("Sure! Here it is".to_string())).unwrap_err();
    assert!(err.starts_with("Failed to parse AI response: "));
    assert!(err.ends_with(". Response: Sure! Here it is"));
    let err = generated_sop_from_reply(Some(r#"{"steps":[]}"#.to_string())).unwrap_err();
    assert!(err.ends_with(r#". Response: {"steps":[]}"#));
}

#[test]
fn first_entry_sorts_first() {
    assert_eq!(next_sort_order(None), Some(0));
    assert_eq!(next_sort_order(Some(-1)), Some(0));
    assert_eq!(next_sort_order(Some(4)), Some(5));
    assert_eq!(next_sort_order(Some(i64::MAX)), None);
}

#[test]
fn reorder_assigns_positions() {
    assert_eq!(reorder_positions(&vec![30, 10, 20]), vec![(30, 0), (10, 1), (20, 2)]);
    assert!(reorder_positions(&vec![]).is_empty());
}
