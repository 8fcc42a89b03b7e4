//! The todo record, the partial-update record, query options, and the
//! domain errors, together with the spec-level functions that the store's
//! contracts are stated over.

use vstd::prelude::*;

verus! {

/// One todo entry as the store holds it. Every stored item is fully
/// populated: the store assigns `id` and both timestamps on creation and
/// they are never client-supplied.
#[derive(Debug)]
pub struct Todo {
    pub id: String,
    pub title: String,
    pub content: String,
    pub completed: bool,
    pub created_at: i64,
    pub updated_at: i64,
}

impl Clone for Todo {
    fn clone(&self) -> (r: Todo)
        ensures
            r == *self,
    {
        Todo {
            id: self.id.clone(),
            title: self.title.clone(),
            content: self.content.clone(),
            completed: self.completed,
            created_at: self.created_at,
            updated_at: self.updated_at,
        }
    }
}

/// A partial update: each field that is present overwrites the stored
/// field; an absent field leaves the stored value unchanged.
#[derive(Debug)]
pub struct UpdateTodo {
    pub title: Option<String>,
    pub content: Option<String>,
    pub completed: Option<bool>,
}

/// Pagination request: both fields are optional and are normalized to
/// page 1 and limit 10 when absent or zero.
#[derive(Debug, Clone, Copy)]
pub struct QueryOptions {
    pub page: Option<usize>,
    pub limit: Option<usize>,
}

/// The only domain-level failures: an operation referenced an id that no
/// live item has, or a create used a title that a live item already has.
#[derive(Debug, Clone, Copy, PartialEq, Eq, Structural)]
pub enum TodoError {
    NotFound,
    Conflict,
}

/// Some live item of `s` has id `id`.
pub open spec fn spec_has_id(s: Seq<Todo>, id: Seq<char>) -> bool {
    exists|i: int| 0 <= i < s.len() && s[i].id@ == id
}

/// Some live item of `s` has title `title`.
pub open spec fn spec_has_title(s: Seq<Todo>, title: Seq<char>) -> bool {
    exists|i: int| 0 <= i < s.len() && s[i].title@ == title
}

/// No two live items share an id.
pub open spec fn unique_ids(s: Seq<Todo>) -> bool {
    forall|i: int, j: int| 0 <= i < j < s.len() ==> s[i].id@ != s[j].id@
}

/// The result of patching `item` with `upd` at time `now`: present fields
/// of `upd` replace the stored ones, `id` and `created_at` are never
/// altered, and `updated_at` is always refreshed to `now`.
pub open spec fn apply_update(item: Todo, upd: UpdateTodo, now: i64) -> Todo {
    Todo {
        id: item.id,
        title: match upd.title {
            Some(t) => t,
            None => item.title,
        },
        content: match upd.content {
            Some(c) => c,
            None => item.content,
        },
        completed: match upd.completed {
            Some(b) => b,
            None => item.completed,
        },
        created_at: item.created_at,
        updated_at: now,
    }
}

} // verus!
