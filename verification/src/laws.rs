//! Laws of the store stated on their own: what an empty partial update
//! changes, how the timestamp invariant (`created_at <= updated_at` for
//! every live item) survives each mutation, how deletion keeps the order
//! of the remaining items, and what pagination returns on an empty
//! collection.

use vstd::prelude::*;
use crate::model::{Todo, UpdateTodo, apply_update};
use crate::pagination::spec_paginate;

verus! {

/// Every live item was updated no earlier than it was created.
pub open spec fn times_ok(s: Seq<Todo>) -> bool {
    forall|i: int| 0 <= i < s.len() ==> s[i].created_at <= s[i].updated_at
}

/// A patch with an empty partial changes `updated_at` and nothing else.
pub proof fn lemma_empty_update(item: Todo, now: i64)
    ensures
        ({
            let u = apply_update(item, UpdateTodo { title: None, content: None, completed: None }, now);
            &&& u.id == item.id
            &&& u.title == item.title
            &&& u.content == item.content
            &&& u.completed == item.completed
            &&& u.created_at == item.created_at
            &&& u.updated_at == now
        }),
{
}

/// A patch never moves `created_at`, so as long as the clock handed to it
/// is no earlier than the item's creation, the item's timestamps stay
/// ordered. (A clock that jumps back before `created_at` is the one case
/// this leaves out.)
pub proof fn lemma_update_keeps_times(item: Todo, upd: UpdateTodo, now: i64)
    requires
        item.created_at <= item.updated_at,
        now >= item.created_at,
    ensures
        apply_update(item, upd, now).created_at <= apply_update(item, upd, now).updated_at,
{
}

/// Appending a freshly created item — both timestamps equal — preserves
/// the timestamp invariant of the whole collection.
pub proof fn lemma_create_keeps_times(s: Seq<Todo>, item: Todo)
    requires
        times_ok(s),
        item.created_at == item.updated_at,
    ensures
        times_ok(s.push(item)),
{
    assert forall|i: int| 0 <= i < s.push(item).len()
        implies s.push(item)[i].created_at <= s.push(item)[i].updated_at by {
        if i < s.len() {
            assert(s.push(item)[i] == s[i]);
        }
    }
}

/// Patching one live item at a clock no earlier than its creation
/// preserves the timestamp invariant of the whole collection.
pub proof fn lemma_patch_keeps_times(s: Seq<Todo>, i: int, upd: UpdateTodo, now: i64)
    requires
        times_ok(s),
        0 <= i < s.len(),
        now >= s[i].created_at,
    ensures
        times_ok(s.update(i, apply_update(s[i], upd, now))),
{
    let t = s.update(i, apply_update(s[i], upd, now));
    assert forall|j: int| 0 <= j < t.len()
        implies t[j].created_at <= t[j].updated_at by {
        if j != i {
            assert(t[j] == s[j]);
        }
    }
}

/// Deleting one item removes exactly that record: the collection shrinks
/// by one, and every remaining item keeps its value and its relative
/// order. The timestamp invariant survives with it.
pub proof fn lemma_remove_keeps_rest(s: Seq<Todo>, i: int)
    requires
        0 <= i < s.len(),
    ensures
        s.remove(i).len() == s.len() - 1,
        forall|j: int| 0 <= j < i ==> s.remove(i)[j] == s[j],
        forall|j: int| i <= j < s.len() - 1 ==> s.remove(i)[j] == s[j + 1],
        times_ok(s) ==> times_ok(s.remove(i)),
{
    assert(times_ok(s) ==> times_ok(s.remove(i))) by {
        if times_ok(s) {
            assert forall|j: int| 0 <= j < s.remove(i).len()
                implies s.remove(i)[j].created_at <= s.remove(i)[j].updated_at by {
                if j < i {
                    assert(s.remove(i)[j] == s[j]);
                } else {
                    assert(s.remove(i)[j] == s[j + 1]);
                }
            }
        }
    }
}

/// Pagination of an empty collection is empty for every page and limit.
pub proof fn lemma_paginate_empty_collection(page: usize, limit: usize)
    requires
        page >= 1,
        limit >= 1,
    ensures
        spec_paginate(Seq::<Todo>::empty(), page, limit) == Seq::<Todo>::empty(),
{
    assert((page - 1) * limit >= 0) by (nonlinear_arith)
        requires page >= 1 && limit >= 1;
}

} // verus!
