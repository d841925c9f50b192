//! The records of the local store as the backend hands them around, and the
//! two rules on the order of checklist entries that the store leaves to the
//! backend.

use vstd::prelude::*;

verus! {

/// A procedure item: a checklist (`todo`) or a flow diagram (`flowchart`).
#[derive(Clone, Debug, PartialEq, Eq)]
pub struct SopItem {
    pub id: i64,
    pub name: String,
    pub icon: String,
    pub item_type: String,
    pub created_at: String,
    pub updated_at: String,
    pub deleted_at: Option<String>,
}

#[derive(Clone, Debug, PartialEq, Eq)]
pub struct CreateSopItem {
    pub name: String,
    pub icon: String,
    pub item_type: String,
}

/// A checklist entry of a procedure item, shown in ascending `sort_order`.
#[derive(Clone, Debug, PartialEq, Eq)]
pub struct TodoItem {
    pub id: i64,
    pub sop_id: i64,
    pub content: String,
    pub completed: bool,
    pub sort_order: i64,
    pub created_at: String,
    pub updated_at: String,
}

#[derive(Clone, Debug, PartialEq, Eq)]
pub struct CreateTodoItem {
    pub sop_id: i64,
    pub content: String,
}

/// The flow-diagram document of a procedure item, nodes and edges as text.
#[derive(Clone, Debug, PartialEq, Eq)]
pub struct FlowData {
    pub id: i64,
    pub sop_id: i64,
    pub nodes: String,
    pub edges: String,
    pub created_at: String,
    pub updated_at: String,
}

/// The stored model settings.
#[derive(Clone, Debug, PartialEq, Eq)]
pub struct AiConfig {
    pub id: i64,
    pub base_url: String,
    pub api_key: String,
    pub model_name: String,
    pub created_at: String,
    pub updated_at: String,
}

#[derive(Clone, Debug, PartialEq, Eq)]
pub struct SaveAiConfig {
    pub base_url: String,
    pub api_key: String,
    pub model_name: String,
}

/// The sort order of a new checklist entry: one past the largest of its
/// item's entries, or 0 for the first; `None` where that does not fit.
pub fn next_sort_order(max_order: Option<i64>) -> (r: Option<i64>)
    ensures
        match max_order {
            None => r == Some(0i64),
            Some(m) => if m < i64::MAX {
                r == Some((m + 1) as i64)
            } else {
                r is None
            },
        },
{
    match max_order {
        None => Some(0),
        Some(m) => m.checked_add(1),
    }
}

/// The new sort orders for a reordering: each entry's position in `ids`,
/// paired with its id.
pub fn reorder_positions(ids: &Vec<i64>) -> (r: Vec<(i64, i64)>)
    requires
        ids@.len() <= i64::MAX,
    ensures
        r@.len() == ids@.len(),
        forall|i: int| 0 <= i < ids@.len() ==> #[trigger] r@[i] == (ids@[i], i as i64),
{
    let mut out: Vec<(i64, i64)> = Vec::new();
    let mut i: usize = 0;
    while i < ids.len()
        invariant
            i <= ids@.len(),
            ids@.len() <= i64::MAX,
            out@.len() == i,
            forall|k: int| 0 <= k < i ==> #[trigger] out@[k] == (ids@[k], k as i64),
        decreases ids.len() - i,
    {
        out.push((ids[i], i as i64));
        i = i + 1;
    }
    out
}

} // verus!
