//! Generated procedure documents: a title and steps in execution order, and
//! their decoding from JSON against the document schema
//! `{title: string, steps: [{step_type: string, label: string, content: string|null}]}`.
//! Members that the schema does not name are ignored; a missing `content` is
//! read as null.

use vstd::prelude::*;
use crate::json::{Json, parse_json, json_parse};

verus! {

/// A step as the companion process returns it.
#[derive(Clone, Debug, PartialEq, Eq)]
pub struct AgentSopStep {
    pub step_type: String,
    pub label: String,
    pub content: Option<String>,
}

/// A document as the companion process returns it.
#[derive(Clone, Debug, PartialEq, Eq)]
pub struct AgentGeneratedSop {
    pub title: String,
    pub steps: Vec<AgentSopStep>,
}

/// A step as the backend hands it to the user interface.
#[derive(Clone, Debug, PartialEq, Eq)]
pub struct SopStep {
    pub step_type: String,
    pub label: String,
    pub content: Option<String>,
}

/// A document as the backend hands it to the user interface.
#[derive(Clone, Debug, PartialEq, Eq)]
pub struct GeneratedSop {
    pub title: String,
    pub steps: Vec<SopStep>,
}

/// What a step says: its kind tag, its label and its optional content.
pub struct StepModel {
    pub step_type: Seq<char>,
    pub label: Seq<char>,
    pub content: Option<Seq<char>>,
}

/// What a document says: its title and its steps in order.
pub struct DocumentModel {
    pub title: Seq<char>,
    pub steps: Seq<StepModel>,
}

pub open spec fn opt_view(o: Option<String>) -> Option<Seq<char>> {
    match o {
        Some(s) => Some(s@),
        None => None,
    }
}

impl View for AgentSopStep {
    type V = StepModel;

    open spec fn view(&self) -> StepModel {
        StepModel { step_type: self.step_type@, label: self.label@, content: opt_view(self.content) }
    }
}

impl View for SopStep {
    type V = StepModel;

    open spec fn view(&self) -> StepModel {
        StepModel { step_type: self.step_type@, label: self.label@, content: opt_view(self.content) }
    }
}

impl View for AgentGeneratedSop {
    type V = DocumentModel;

    open spec fn view(&self) -> DocumentModel {
        DocumentModel { title: self.title@, steps: self.steps@.map_values(|s: AgentSopStep| s@) }
    }
}

impl View for GeneratedSop {
    type V = DocumentModel;

    open spec fn view(&self) -> DocumentModel {
        DocumentModel { title: self.title@, steps: self.steps@.map_values(|s: SopStep| s@) }
    }
}

/// The value of the first member of `fields` named `key`.
pub open spec fn field_of(fields: Seq<(String, Json)>, key: Seq<char>) -> Option<Json>
    decreases fields.len(),
{
    if fields.len() == 0 {
        None
    } else if fields[0].0@ == key {
        Some(fields[0].1)
    } else {
        field_of(fields.drop_first(), key)
    }
}

/// The member `key` of `fields`, where it is a string.
pub open spec fn string_field(fields: Seq<(String, Json)>, key: Seq<char>) -> Option<Seq<char>> {
    match field_of(fields, key) {
        Some(Json::Str(s)) => Some(s@),
        _ => None,
    }
}

/// The member `key` of `fields` read as an optional string: absent or null
/// is `Some(None)`, a string is `Some(Some(..))`, anything else is `None`.
pub open spec fn nullable_string_field(fields: Seq<(String, Json)>, key: Seq<char>) -> Option<
    Option<Seq<char>>,
> {
    match field_of(fields, key) {
        None => Some(None),
        Some(Json::Null) => Some(None),
        Some(Json::Str(s)) => Some(Some(s@)),
        _ => None,
    }
}

/// The step that `j` encodes, or `None` where it breaks the step schema.
pub open spec fn step_of(j: Json) -> Option<StepModel> {
    match j {
        Json::Object(fields) => {
            let step_type = string_field(fields@, "step_type"@);
            let label = string_field(fields@, "label"@);
            let content = nullable_string_field(fields@, "content"@);
            if step_type is Some && label is Some && content is Some {
                Some(StepModel { step_type: step_type->0, label: label->0, content: content->0 })
            } else {
                None
            }
        },
        _ => None,
    }
}

/// Every item encodes a step.
pub open spec fn all_steps(items: Seq<Json>) -> bool {
    forall|i: int| 0 <= i < items.len() ==> (#[trigger] step_of(items[i])) is Some
}

/// The steps that `items` encode, in the same order.
pub open spec fn steps_of(items: Seq<Json>) -> Seq<StepModel> {
    items.map_values(|j: Json| step_of(j)->0)
}

/// The document that `j` encodes, or `None` where it breaks the schema.
pub open spec fn document_of(j: Json) -> Option<DocumentModel> {
    match j {
        Json::Object(fields) => match (string_field(fields@, "title"@), field_of(fields@, "steps"@)) {
            (Some(title), Some(Json::Array(items))) => if all_steps(items@) {
                Some(DocumentModel { title, steps: steps_of(items@) })
            } else {
                None
            },
            _ => None,
        },
        _ => None,
    }
}

/// The document that a text holds, or `None` where the text is not JSON or
/// breaks the schema.
pub open spec fn document_of_text(text: Seq<char>) -> Option<DocumentModel> {
    match json_parse(text) {
        Some(j) => document_of(j),
        None => None,
    }
}

fn find_field<'a>(fields: &'a Vec<(String, Json)>, key: &String) -> (r: Option<&'a Json>)
    ensures
        match r {
            Some(v) => field_of(fields@, key@) == Some(*v),
            None => field_of(fields@, key@) is None,
        },
{
    let mut i: usize = 0;
    assert(fields@.subrange(0, fields@.len() as int) =~= fields@);
    while i < fields.len()
        invariant
            i <= fields@.len(),
            field_of(fields@, key@) == field_of(fields@.subrange(i as int, fields@.len() as int), key@),
        decreases fields.len() - i,
    {
        let ghost rest = fields@.subrange(i as int, fields@.len() as int);
        assert(rest.drop_first() =~= fields@.subrange(i + 1, fields@.len() as int));
        if fields[i].0 == *key {
            return Some(&fields[i].1);
        }
        i = i + 1;
    }
    None
}

fn string_member(fields: &Vec<(String, Json)>, key: &str) -> (r: Result<String, String>)
    ensures
        match r {
            Ok(s) => string_field(fields@, key@) == Some(s@),
            Err(_) => string_field(fields@, key@) is None,
        },
{
    let name = String::from_str(key);
    match find_field(fields, &name) {
        Some(Json::Str(s)) => Ok(s.clone()),
        Some(_) => Err(String::from_str("invalid type: expected a string member").concat(key)),
        None => Err(String::from_str("missing field ").concat(key)),
    }
}

fn nullable_string_member(fields: &Vec<(String, Json)>, key: &str) -> (r: Result<Option<String>, String>)
    ensures
        match r {
            Ok(s) => nullable_string_field(fields@, key@) == Some(opt_view(s)),
            Err(_) => nullable_string_field(fields@, key@) is None,
        },
{
    let name = String::from_str(key);
    match find_field(fields, &name) {
        Some(Json::Str(s)) => Ok(Some(s.clone())),
        Some(Json::Null) => Ok(None),
        Some(_) => Err(String::from_str("invalid type: expected a string or null member ").concat(key)),
        None => Ok(None),
    }
}

/// Reads one step from a JSON value.
pub fn decode_step(j: &Json) -> (r: Result<AgentSopStep, String>)
    ensures
        r is Ok <==> step_of(*j) is Some,
        r matches Ok(s) ==> s@ == step_of(*j)->0,
{
    match j {
        Json::Object(fields) => {
            let step_type = string_member(fields, "step_type")?;
            let label = string_member(fields, "label")?;
            let content = nullable_string_member(fields, "content")?;
            Ok(AgentSopStep { step_type, label, content })
        },
        _ => Err(String::from_str("invalid type: expected a step object")),
    }
}

/// Reads a document from a JSON value, steps in the order of the array.
pub fn decode_document(j: &Json) -> (r: Result<AgentGeneratedSop, String>)
    ensures
        r is Ok <==> document_of(*j) is Some,
        r matches Ok(d) ==> d@ == document_of(*j)->0,
{
    match j {
        Json::Object(fields) => {
            let title = string_member(fields, "title")?;
            let steps_name = String::from_str("steps");
            let items = match find_field(fields, &steps_name) {
                Some(Json::Array(items)) => items,
                Some(_) => {
                    return Err(String::from_str("invalid type: expected an array member steps"));
                },
                None => {
                    return Err(String::from_str("missing field steps"));
                },
            };
            let mut steps: Vec<AgentSopStep> = Vec::new();
            let mut i: usize = 0;
            while i < items.len()
                invariant
                    *j == Json::Object(*fields),
                    field_of(fields@, "steps"@) == Some(Json::Array(*items)),
                    string_field(fields@, "title"@) == Some(title@),
                    i <= items@.len(),
                    steps@.len() == i,
                    forall|k: int| 0 <= k < i ==> (#[trigger] step_of(items@[k])) is Some,
                    forall|k: int| 0 <= k < i ==> (#[trigger] steps@[k])@ == step_of(items@[k])->0,
                decreases items.len() - i,
            {
                let step = match decode_step(&items[i]) {
                    Ok(step) => step,
                    Err(e) => {
                        assert(!all_steps(items@));
                        return Err(e);
                    },
                };
                steps.push(step);
                i = i + 1;
            }
            let d = AgentGeneratedSop { title, steps };
            assert(d@.steps =~= steps_of(items@));
            Ok(d)
        },
        _ => Err(String::from_str("invalid type: expected a document object")),
    }
}

} // verus!
