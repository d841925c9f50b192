//! The request bridge: the typed call to a companion believed ready, and the
//! reading of its answer into a document or a distinct error.
//!
//! The driver sends the request and hands over what came back; the bridge
//! decides. A transport failure, a non-success status (its body kept
//! verbatim) and a success body that breaks the document schema each give
//! their own error.

use vstd::prelude::*;
use crate::document::{
    AgentGeneratedSop, decode_document, document_of, document_of_text, field_of, step_of, steps_of,
};
use crate::error::SidecarError;
use crate::json::{Json, json_parse, parse_json};
use crate::readiness::{is_success_status, status_is_success};

verus! {

/// The model settings forwarded verbatim to the companion.
#[derive(Clone, Debug, PartialEq, Eq)]
pub struct AgentAiConfig {
    pub base_url: String,
    pub api_key: String,
    pub model_name: String,
}

/// The body of a generation call.
#[derive(Clone, Debug, PartialEq, Eq)]
pub struct GenerateSopRequest {
    pub prompt: String,
    pub config: AgentAiConfig,
}

/// The body of a healthy liveness answer.
#[derive(Clone, Debug, PartialEq, Eq)]
pub struct HealthResponse {
    pub status: String,
    pub version: String,
}

/// An answer of the companion: its status, and its body as text, or why the
/// body could not be read.
#[derive(Debug, PartialEq, Eq)]
pub struct CompanionReply {
    pub status: u16,
    pub body: Result<String, String>,
}

/// The body text of an answer; an unreadable body reads as empty.
pub open spec fn body_text(body: Result<String, String>) -> Seq<char> {
    match body {
        Ok(t) => t@,
        Err(_) => Seq::empty(),
    }
}

/// What the outcome of a generation call means for its caller.
pub open spec fn generation_result_ok(
    reply: Result<CompanionReply, String>,
    r: Result<AgentGeneratedSop, SidecarError>,
) -> bool {
    match reply {
        Err(e) => r == Err::<AgentGeneratedSop, SidecarError>(SidecarError::Transport(e)),
        Ok(answer) => if !is_success_status(answer.status) {
            r matches Err(SidecarError::Protocol(b)) && b@ == body_text(answer.body)
        } else {
            match answer.body {
                Err(e) => r == Err::<AgentGeneratedSop, SidecarError>(SidecarError::Schema(e)),
                Ok(t) => match document_of_text(t@) {
                    Some(d) => r matches Ok(doc) && doc@ == d,
                    None => r matches Err(SidecarError::Schema(_)),
                },
            }
        },
    }
}

impl GenerateSopRequest {
    pub fn new(prompt: String, config: AgentAiConfig) -> (r: GenerateSopRequest)
        ensures
            r == (GenerateSopRequest { prompt, config }),
    {
        GenerateSopRequest { prompt, config }
    }
}

/// Reads the outcome of a generation call: the transport error, the
/// companion's own rejection with its body verbatim, a schema error, or the
/// document with its steps in the order of the answer.
pub fn interpret_generation_reply(reply: Result<CompanionReply, String>) -> (r: Result<
    AgentGeneratedSop,
    SidecarError,
>)
    ensures
        generation_result_ok(reply, r),
{
    match reply {
        Err(e) => Err(SidecarError::Transport(e)),
        Ok(answer) => {
            if !status_is_success(answer.status) {
                let text = match answer.body {
                    Ok(t) => t,
                    Err(_) => String::new(),
                };
                return Err(SidecarError::Protocol(text));
            }
            match answer.body {
                Err(e) => Err(SidecarError::Schema(e)),
                Ok(t) => match parse_json(t.as_str()) {
                    Err(e) => Err(SidecarError::Schema(e)),
                    Ok(j) => match decode_document(&j) {
                        Err(e) => Err(SidecarError::Schema(e)),
                        Ok(doc) => Ok(doc),
                    },
                },
            }
        },
    }
}

/// A success answer whose body is a well-formed document gives that document
/// with its steps in the order of the answer's `steps` array: the step at
/// each position is the one that the array holds there, none added, dropped
/// or reordered.
pub proof fn generation_keeps_step_order(
    reply: Result<CompanionReply, String>,
    r: Result<AgentGeneratedSop, SidecarError>,
    text: String,
    fields: Vec<(String, Json)>,
    items: Vec<Json>,
)
    requires
        generation_result_ok(reply, r),
        reply matches Ok(answer) && is_success_status(answer.status) && answer.body == Ok::<
            String,
            String,
        >(text),
        json_parse(text@) == Some(Json::Object(fields)),
        field_of(fields@, "steps"@) == Some(Json::Array(items)),
        document_of(Json::Object(fields)) is Some,
    ensures
        r matches Ok(doc) && doc.steps@.len() == items@.len() && forall|i: int|
            0 <= i < items@.len() ==> (#[trigger] doc.steps@[i])@ == step_of(items@[i])->0,
{
    let doc = r->Ok_0;
    let d = document_of(Json::Object(fields))->0;
    assert(doc@ == d);
    assert(d.steps == steps_of(items@));
    assert(doc@.steps.len() == doc.steps@.len());
    assert forall|i: int| 0 <= i < items@.len() implies (#[trigger] doc.steps@[i])@ == step_of(
        items@[i],
    )->0 by {
        assert(doc@.steps[i] == d.steps[i]);
    }
}

} // verus!
