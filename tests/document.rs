use zop::document::{decode_document, decode_step, AgentSopStep};
use zop::json::Json;

fn s(text: &str) -> Json {
    Json::Str(text.to_string())
}

fn member(name: &str, value: Json) -> (String, Json) {
    (name.to_string(), value)
}

#[test]
fn step_reads_members_in_any_order() {
    let j = Json::Object(vec![member("content", s("body")), member("label", s("L")), member("step_type", s("read"))]);
    assert_eq!(
        decode_step(&j),
        Ok(AgentSopStep { step_type: "read".to_string(), label: "L".to_string(), content: Some("body".to_string()) })
    );
}

#[test]
fn null_content_reads_as_none() {
    let j = Json::Object(vec![member("step_type", s("end")), member("label", s("End")), member("content", Json::Null)]);
    assert_eq!(decode_step(&j).unwrap().content, None);
}

#[test]
fn first_of_repeated_members_counts() {
    let j = Json::Object(vec![
        member("step_type", s("form")),
        member("label", s("first")),
        member("label", s("second")),
    ]);
    assert_eq!(decode_step(&j).unwrap().label, "first");
}

#[test]
fn non_object_step_is_refused() {
    assert!(decode_step(&Json::Array(vec![])).is_err());
    assert!(decode_step(&Json::Bool(true)).is_err());
    assert!(decode_step(&Json::Number("1".to_string())).is_err());
}

#[test]
fn document_keeps_array_order() {
    let step = |kind: &str, label: &str| {
        Json::Object(vec![member("step_type", s(kind)), member("label", s(label))])
    };
    let j = Json::Object(vec![
        member("steps", Json::Array(vec![step("start", "b"), step("read", "a"), step("end", "c")])),
        member("title", s("T")),
    ]);
    let doc = decode_document(&j).unwrap();
    let labels: Vec<&str> = doc.steps.iter().map(|x| x.label.as_str()).collect();
    assert_eq!(labels, vec!["b", "a", "c"]);
    assert_eq!(doc.title, "T");
}

#[test]
fn one_bad_step_spoils_document() {
    let good = Json::Object(vec![member("step_type", s("start")), member("label", s("S"))]);
    let bad = Json::Object(vec![member("step_type", s("read"))]);
    let j = Json::Object(vec![member("title", s("T")), member("steps", Json::Array(vec![good, bad]))]);
    assert!(decode_document(&j).is_err());
}
