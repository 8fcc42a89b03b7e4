//! The store: exclusive owner of the ordered todo collection. It enforces
//! id uniqueness as an invariant, title uniqueness at creation, partial
//! updates that never touch `id` or `created_at`, and order-preserving
//! deletion. Every operation returns its domain failures (`NotFound`,
//! `Conflict`) as values and never panics.

use vstd::prelude::*;
use crate::model::{Todo, TodoError, UpdateTodo, QueryOptions};
use crate::model::{spec_has_id, spec_has_title, unique_ids, apply_update};
use crate::pagination::{paginate, spec_paginate, norm_page, norm_limit};
use crate::trusted::{fresh_uuid, now_millis};

verus! {

/// The mutex that serializes concurrent access lives with the caller; the
/// store itself is the single consistent collection it guards.
pub struct Store {
    items: Vec<Todo>,
}

impl View for Store {
    type V = Seq<Todo>;

    closed spec fn view(&self) -> Seq<Todo> {
        self.items@
    }
}

impl Store {
    /// The store's invariant: no two live items share an id.
    pub open spec fn wf(&self) -> bool {
        unique_ids(self@)
    }

    /// An empty store, the only starting state.
    pub fn new() -> (s: Store)
        ensures
            s@ == Seq::<Todo>::empty(),
            s.wf(),
    {
        Store { items: Vec::new() }
    }

    /// The number of live items.
    pub fn len(&self) -> (n: usize)
        ensures
            n == self@.len(),
    {
        self.items.len()
    }

    /// Whether some live item has this id.
    pub fn contains_id(&self, id: &String) -> (r: bool)
        ensures
            r == spec_has_id(self@, id@),
    {
        let mut i: usize = 0;
        while i < self.items.len()
            invariant
                i <= self@.len(),
                forall|j: int| 0 <= j < i ==> self@[j].id@ != id@,
            decreases self@.len() - i,
        {
            if self.items[i].id == *id {
                return true;
            }
            i += 1;
        }
        false
    }

    /// Whether some live item has this exact title (case-sensitive).
    pub fn contains_title(&self, title: &String) -> (r: bool)
        ensures
            r == spec_has_title(self@, title@),
    {
        let mut i: usize = 0;
        while i < self.items.len()
            invariant
                i <= self@.len(),
                forall|j: int| 0 <= j < i ==> self@[j].title@ != title@,
            decreases self@.len() - i,
        {
            if self.items[i].title == *title {
                return true;
            }
            i += 1;
        }
        false
    }

    /// Linear scan for the index of the item with this id.
    fn find_index(&self, id: &String) -> (r: Option<usize>)
        ensures
            match r {
                Some(i) => i < self@.len() && self@[i as int].id@ == id@,
                None => !spec_has_id(self@, id@),
            },
    {
        let mut i: usize = 0;
        while i < self.items.len()
            invariant
                i <= self@.len(),
                forall|j: int| 0 <= j < i ==> self@[j].id@ != id@,
            decreases self@.len() - i,
        {
            if self.items[i].id == *id {
                return Some(i);
            }
            i += 1;
        }
        None
    }

    /// A copy of the requested page of the collection, in insertion order.
    pub fn list(&self, opts: &QueryOptions) -> (r: Vec<Todo>)
        ensures
            r@ == spec_paginate(self@, norm_page(opts.page), norm_limit(opts.limit)),
    {
        paginate(&self.items, opts.page, opts.limit)
    }

    /// An independent copy of the item with this id, or NotFound. Never
    /// mutates the collection; succeeds exactly when the id is live.
    pub fn get(&self, id: &String) -> (r: Result<Todo, TodoError>)
        ensures
            match r {
                Ok(item) => exists|i: int|
                    0 <= i < self@.len() && #[trigger] self@[i].id@ == id@ && item == self@[i],
                Err(e) => e == TodoError::NotFound,
            },
            r is Ok <==> spec_has_id(self@, id@),
    {
        match self.find_index(id) {
            Some(i) => Ok(self.items[i].clone()),
            None => Err(TodoError::NotFound),
        }
    }

    /// Inserts a fully fresh item built from an id the caller has already
    /// checked against the collection. Succeeds exactly when no live item
    /// has this title; on Conflict the collection is unchanged.
    pub fn insert_new(&mut self, id: String, title: String, content: String, now: i64)
        -> (r: Result<Todo, TodoError>)
        requires
            old(self).wf(),
            !spec_has_id(old(self)@, id@),
        ensures
            final(self).wf(),
            match r {
                Ok(item) => {
                    &&& !spec_has_title(old(self)@, title@)
                    &&& item.id == id
                    &&& item.title == title
                    &&& item.content == content
                    &&& item.completed == false
                    &&& item.created_at == now
                    &&& item.updated_at == now
                    &&& final(self)@ == old(self)@.push(item)
                    &&& spec_has_id(final(self)@, item.id@)
                },
                Err(e) => {
                    &&& e == TodoError::Conflict
                    &&& spec_has_title(old(self)@, title@)
                    &&& final(self)@ == old(self)@
                },
            },
    {
        if self.contains_title(&title) {
            return Err(TodoError::Conflict);
        }
        let item = Todo {
            id,
            title,
            content,
            completed: false,
            created_at: now,
            updated_at: now,
        };
        let copy = item.clone();
        self.items.push(item);
        proof {
            assert forall|i: int, j: int|
                0 <= i < j < self@.len() implies self@[i].id@ != self@[j].id@ by {
                if j < self@.len() - 1 {
                    assert(old(self).wf());
                } else {
                    assert(self@[j].id@ == copy.id@);
                    assert(!spec_has_id(old(self)@, copy.id@));
                    assert(self@[i] == old(self)@[i]);
                }
            }
            assert(self@[self@.len() - 1].id@ == copy.id@);
        }
        Ok(copy)
    }

    /// Creates a new item at time `now` with a freshly drawn random id.
    /// A duplicate title always yields Conflict with the collection
    /// unchanged. Success is withheld only if the drawn id collides with a
    /// live one, which the last clause pins to a non-empty collection: on
    /// an empty store, success is owed whenever the title is free.
    pub fn create_at(&mut self, title: String, content: String, now: i64)
        -> (r: Result<Todo, TodoError>)
        requires
            old(self).wf(),
        ensures
            final(self).wf(),
            match r {
                Ok(item) => {
                    &&& !spec_has_title(old(self)@, title@)
                    &&& !spec_has_id(old(self)@, item.id@)
                    &&& item.id@.len() == 36
                    &&& item.title == title
                    &&& item.content == content
                    &&& item.completed == false
                    &&& item.created_at == now
                    &&& item.updated_at == now
                    &&& final(self)@ == old(self)@.push(item)
                    &&& spec_has_id(final(self)@, item.id@)
                },
                Err(e) => {
                    &&& e == TodoError::Conflict
                    &&& final(self)@ == old(self)@
                },
            },
            spec_has_title(old(self)@, title@) ==> r is Err,
            (r is Err && !spec_has_title(old(self)@, title@)) ==> old(self)@.len() > 0,
    {
        let id = fresh_uuid();
        if self.contains_id(&id) {
            return Err(TodoError::Conflict);
        }
        self.insert_new(id, title, content, now)
    }

    /// Creates a new item stamped with the current wall-clock time. Same
    /// contract as `create_at` for every time the clock can return; both
    /// timestamps of a created item are equal.
    pub fn create(&mut self, title: String, content: String) -> (r: Result<Todo, TodoError>)
        requires
            old(self).wf(),
        ensures
            final(self).wf(),
            match r {
                Ok(item) => {
                    &&& !spec_has_title(old(self)@, title@)
                    &&& !spec_has_id(old(self)@, item.id@)
                    &&& item.id@.len() == 36
                    &&& item.title == title
                    &&& item.content == content
                    &&& item.completed == false
                    &&& item.created_at == item.updated_at
                    &&& final(self)@ == old(self)@.push(item)
                    &&& spec_has_id(final(self)@, item.id@)
                },
                Err(e) => {
                    &&& e == TodoError::Conflict
                    &&& final(self)@ == old(self)@
                },
            },
            spec_has_title(old(self)@, title@) ==> r is Err,
            (r is Err && !spec_has_title(old(self)@, title@)) ==> old(self)@.len() > 0,
    {
        let now = now_millis();
        self.create_at(title, content, now)
    }

    /// Applies a partial update at time `now` to the item with this id.
    /// Succeeds exactly when the id is live; on NotFound the collection is
    /// unchanged. On success exactly one record is replaced, atomically,
    /// by `apply_update` of the old record.
    pub fn patch_at(&mut self, id: &String, upd: &UpdateTodo, now: i64)
        -> (r: Result<Todo, TodoError>)
        requires
            old(self).wf(),
        ensures
            final(self).wf(),
            match r {
                Ok(item) => exists|i: int| {
                    &&& 0 <= i < old(self)@.len()
                    &&& #[trigger] old(self)@[i].id@ == id@
                    &&& item == apply_update(old(self)@[i], *upd, now)
                    &&& final(self)@ == old(self)@.update(i, item)
                },
                Err(e) => {
                    &&& e == TodoError::NotFound
                    &&& final(self)@ == old(self)@
                },
            },
            r is Ok <==> spec_has_id(old(self)@, id@),
    {
        let i = match self.find_index(id) {
            Some(i) => i,
            None => {
                return Err(TodoError::NotFound);
            },
        };
        let cur = &self.items[i];
        let item = Todo {
            id: cur.id.clone(),
            title: match &upd.title {
                Some(t) => t.clone(),
                None => cur.title.clone(),
            },
            content: match &upd.content {
                Some(c) => c.clone(),
                None => cur.content.clone(),
            },
            completed: match upd.completed {
                Some(b) => b,
                None => cur.completed,
            },
            created_at: cur.created_at,
            updated_at: now,
        };
        let copy = item.clone();
        self.items.remove(i);
        self.items.insert(i, item);
        proof {
            assert(self@ =~= old(self)@.update(i as int, copy));
            assert(copy == apply_update(old(self)@[i as int], *upd, now));
            assert(exists|j: int| {
                &&& 0 <= j < old(self)@.len()
                &&& #[trigger] old(self)@[j].id@ == id@
                &&& copy == apply_update(old(self)@[j], *upd, now)
                &&& self@ == old(self)@.update(j, copy)
            });
            assert forall|a: int, b: int|
                0 <= a < b < self@.len() implies self@[a].id@ != self@[b].id@ by {
                assert(self@[a].id@ == old(self)@[a].id@);
                assert(self@[b].id@ == old(self)@[b].id@);
            }
        }
        Ok(copy)
    }

    /// Applies a partial update stamped with the current wall-clock time:
    /// the replaced record is `apply_update` of the old one at the time
    /// the returned item carries in `updated_at`.
    pub fn patch(&mut self, id: &String, upd: &UpdateTodo) -> (r: Result<Todo, TodoError>)
        requires
            old(self).wf(),
        ensures
            final(self).wf(),
            match r {
                Ok(item) => exists|i: int| {
                    &&& 0 <= i < old(self)@.len()
                    &&& #[trigger] old(self)@[i].id@ == id@
                    &&& item == apply_update(old(self)@[i], *upd, item.updated_at)
                    &&& final(self)@ == old(self)@.update(i, item)
                },
                Err(e) => {
                    &&& e == TodoError::NotFound
                    &&& final(self)@ == old(self)@
                },
            },
            r is Ok <==> spec_has_id(old(self)@, id@),
    {
        let now = now_millis();
        self.patch_at(id, upd, now)
    }

    /// Removes exactly the item with this id, keeping the relative order
    /// of the rest. Succeeds exactly when the id is live; afterwards the
    /// id is live no more. On NotFound the collection is unchanged.
    pub fn delete(&mut self, id: &String) -> (r: Result<(), TodoError>)
        requires
            old(self).wf(),
        ensures
            final(self).wf(),
            match r {
                Ok(()) => exists|i: int| {
                    &&& 0 <= i < old(self)@.len()
                    &&& #[trigger] old(self)@[i].id@ == id@
                    &&& final(self)@ == old(self)@.remove(i)
                },
                Err(e) => {
                    &&& e == TodoError::NotFound
                    &&& final(self)@ == old(self)@
                },
            },
            r is Ok <==> spec_has_id(old(self)@, id@),
            r is Ok ==> !spec_has_id(final(self)@, id@),
    {
        let i = match self.find_index(id) {
            Some(i) => i,
            None => {
                return Err(TodoError::NotFound);
            },
        };
        self.items.remove(i);
        proof {
            assert forall|a: int, b: int|
                0 <= a < b < self@.len() implies self@[a].id@ != self@[b].id@ by {
                if a < i && b < i {
                    assert(self@[a] == old(self)@[a]);
                    assert(self@[b] == old(self)@[b]);
                } else if a < i {
                    assert(self@[a] == old(self)@[a]);
                    assert(self@[b] == old(self)@[b + 1]);
                } else {
                    assert(self@[a] == old(self)@[a + 1]);
                    assert(self@[b] == old(self)@[b + 1]);
                }
            }
            assert forall|j: int| 0 <= j < self@.len() implies self@[j].id@ != id@ by {
                if j < i {
                    assert(self@[j] == old(self)@[j]);
                    assert(old(self)@[j].id@ != old(self)@[i as int].id@);
                } else {
                    assert(self@[j] == old(self)@[j + 1]);
                    assert(old(self)@[j + 1].id@ != old(self)@[i as int].id@);
                }
            }
        }
        Ok(())
    }
}

} // verus!
