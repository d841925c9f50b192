//! What the backend's commands compute around the store and the model
//! service: the greeting, the check for stored model settings, and the
//! reading of a model's reply into a document.

use vstd::prelude::*;
use crate::document::{AgentGeneratedSop, GeneratedSop, SopStep, decode_document, document_of_text};
use crate::json::parse_json;
use crate::records::AiConfig;

verus! {

/// The greeting for `name`.
pub open spec fn greeting(name: Seq<char>) -> Seq<char> {
    "Hello, "@ + name + "! You've been greeted from Rust!"@
}

pub fn greet(name: &str) -> (r: String)
    ensures
        r@ == greeting(name@),
{
    String::from_str("Hello, ").concat(name).concat("! You've been greeted from Rust!")
}

/// The error where no model settings are stored.
pub open spec fn missing_config_message() -> Seq<char> {
    "AI configuration not found. Please configure AI settings first."@
}

/// The stored model settings, or the error that asks the user for them.
pub fn require_ai_config(config: Option<AiConfig>) -> (r: Result<AiConfig, String>)
    ensures
        match config {
            Some(c) => r == Ok::<AiConfig, String>(c),
            None => r matches Err(m) && m@ == missing_config_message(),
        },
{
    match config {
        Some(c) => Ok(c),
        None => Err(String::from_str("AI configuration not found. Please configure AI settings first.")),
    }
}

/// The same document in the form handed to the user interface.
fn to_generated(d: &AgentGeneratedSop) -> (r: GeneratedSop)
    ensures
        r@ == d@,
{
    let mut steps: Vec<SopStep> = Vec::new();
    let mut i: usize = 0;
    while i < d.steps.len()
        invariant
            i <= d.steps@.len(),
            steps@.len() == i,
            forall|k: int| 0 <= k < i ==> (#[trigger] steps@[k])@ == d.steps@[k]@,
        decreases d.steps.len() - i,
    {
        let s = &d.steps[i];
        let content = match &s.content {
            Some(c) => Some(c.clone()),
            None => None,
        };
        steps.push(SopStep { step_type: s.step_type.clone(), label: s.label.clone(), content });
        i = i + 1;
    }
    let r = GeneratedSop { title: d.title.clone(), steps };
    assert(r@.steps =~= d@.steps);
    r
}

/// Reads a model's reply into a document. No reply is an error; so is a
/// reply that is not a document, with the parser's description and the
/// reply itself in the message.
pub fn generated_sop_from_reply(reply: Option<String>) -> (r: Result<GeneratedSop, String>)
    ensures
        match reply {
            None => r matches Err(m) && m@ == "No response from AI"@,
            Some(c) => match document_of_text(c@) {
                Some(d) => r matches Ok(doc) && doc@ == d,
                None => r matches Err(m) && exists|why: Seq<char>|
                    m@ == "Failed to parse AI response: "@ + why + ". Response: "@ + c@,
            },
        },
{
    match reply {
        None => Err(String::from_str("No response from AI")),
        Some(c) => {
            let decoded = match parse_json(c.as_str()) {
                Ok(j) => decode_document(&j),
                Err(e) => Err(e),
            };
            match decoded {
                Ok(d) => Ok(to_generated(&d)),
                Err(e) => {
                    let m = String::from_str("Failed to parse AI response: ").concat(e.as_str()).concat(
                        ". Response: ",
                    ).concat(c.as_str());
                    assert(m@ == "Failed to parse AI response: "@ + e@ + ". Response: "@ + c@);
                    Err(m)
                },
            }
        },
    }
}

} // verus!
