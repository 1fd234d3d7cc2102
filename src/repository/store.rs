use vstd::prelude::*;
use crate::models::todo::{NewTodo, NewTodoView, Todo, TodoView};

verus! {

/// std::fmt::Error, the storage-failure signal of the repository contract:
/// declared so that results can carry it; nothing about it is assumed.
#[verifier::external_type_specification]
pub struct ExFmtError(std::fmt::Error);

/// Identifiers strictly increase along the sequence and are all positive, so
/// each one occurs at most once and the last is the largest.
pub open spec fn ids_ascending(s: Seq<TodoView>) -> bool {
    &&& forall|i: int| 0 <= i < s.len() ==> #[trigger] s[i].todo_id >= 1
    &&& forall|i: int, j: int|
        0 <= i < j < s.len() ==> #[trigger] s[i].todo_id < #[trigger] s[j].todo_id
}

/// Whether some stored todo has identifier `id`.
pub open spec fn has_id(s: Seq<TodoView>, id: i32) -> bool {
    exists|i: int| 0 <= i < s.len() && #[trigger] s[i].todo_id == id
}

/// The position of the todo with identifier `id` (meaningful when `has_id`).
pub open spec fn index_of(s: Seq<TodoView>, id: i32) -> int {
    choose|i: int| 0 <= i < s.len() && #[trigger] s[i].todo_id == id
}

/// The todo stored under `id`, if any.
pub open spec fn lookup(s: Seq<TodoView>, id: i32) -> Option<TodoView> {
    if has_id(s, id) {
        Some(s[index_of(s, id)])
    } else {
        None
    }
}

/// The identifier the next creation assigns: one past the last stored
/// identifier, or 1 when nothing is stored. Identifiers are therefore reused:
/// once the last todo is deleted its identifier is handed out again, and once
/// the store is emptied numbering restarts at 1.
pub open spec fn next_id(s: Seq<TodoView>) -> int {
    if s.len() == 0 {
        1
    } else {
        s.last().todo_id + 1
    }
}

/// Whether a creation can assign an identifier that fits in an `i32`.
pub open spec fn can_create(s: Seq<TodoView>) -> bool {
    next_id(s) <= i32::MAX
}

/// The todo that creating `n` in `s` stores and returns.
pub open spec fn created(s: Seq<TodoView>, n: NewTodoView) -> TodoView {
    n.with_id(next_id(s) as i32)
}

/// The contents after creating `n` in `s`.
pub open spec fn after_create(s: Seq<TodoView>, n: NewTodoView) -> Seq<TodoView> {
    if can_create(s) {
        s.push(created(s, n))
    } else {
        s
    }
}

/// The contents after deleting `id` from `s`.
pub open spec fn after_delete(s: Seq<TodoView>, id: i32) -> Seq<TodoView> {
    if has_id(s, id) {
        s.remove(index_of(s, id))
    } else {
        s
    }
}

/// The contents after replacing the todo under `id` in `s` by `t`.
pub open spec fn after_update(s: Seq<TodoView>, id: i32, t: TodoView) -> Seq<TodoView> {
    if has_id(s, id) {
        s.update(index_of(s, id), t.with_id(id))
    } else {
        s
    }
}

/// `r` is what creating `n` in `s` returns.
pub open spec fn create_returns(s: Seq<TodoView>, n: NewTodoView, r: Result<Todo, std::fmt::Error>) -> bool {
    match r {
        Ok(t) => can_create(s) && t@ == created(s, n),
        Err(_) => !can_create(s),
    }
}

/// `r` is what looking up `id` in `s` returns.
pub open spec fn get_returns(s: Seq<TodoView>, id: i32, r: Option<Todo>) -> bool {
    match r {
        Some(t) => lookup(s, id) == Some(t@),
        None => lookup(s, id) is None,
    }
}

/// `r` is what deleting `id` from `s` returns: the position it held, if any.
pub open spec fn delete_returns(s: Seq<TodoView>, id: i32, r: Option<usize>) -> bool {
    match r {
        Some(i) => has_id(s, id) && i == index_of(s, id),
        None => !has_id(s, id),
    }
}

/// `r` is what replacing the todo under `id` in `s` by `t` returns.
pub open spec fn update_returns(s: Seq<TodoView>, id: i32, t: TodoView, r: Option<Todo>) -> bool {
    match r {
        Some(u) => has_id(s, id) && u@ == t.with_id(id),
        None => !has_id(s, id),
    }
}

/// The views of a sequence of todos.
pub open spec fn views(v: Seq<Todo>) -> Seq<TodoView> {
    v.map_values(|t: Todo| t@)
}

/// With ascending identifiers, a position holding `id` is the one `index_of` picks.
pub proof fn lemma_index_of_unique(s: Seq<TodoView>, id: i32, i: int)
    requires
        ids_ascending(s),
        0 <= i < s.len(),
        s[i].todo_id == id,
    ensures
        has_id(s, id),
        index_of(s, id) == i,
{
    let j = index_of(s, id);
    assert(0 <= j < s.len() && s[j].todo_id == id);
}

/// Creation keeps identifiers ascending.
pub proof fn lemma_create_keeps_ascending(s: Seq<TodoView>, n: NewTodoView)
    requires
        ids_ascending(s),
    ensures
        ids_ascending(after_create(s, n)),
{
    if can_create(s) {
        let r = after_create(s, n);
        assert forall|i: int, j: int| 0 <= i < j < r.len() implies #[trigger] r[i].todo_id
            < #[trigger] r[j].todo_id by {
            if j == s.len() && i + 1 < s.len() {
                assert(s[i].todo_id < s[s.len() - 1].todo_id);
            }
        }
    }
}

/// Deletion keeps identifiers ascending.
pub proof fn lemma_delete_keeps_ascending(s: Seq<TodoView>, id: i32)
    requires
        ids_ascending(s),
    ensures
        ids_ascending(after_delete(s, id)),
{
    if has_id(s, id) {
        let k = index_of(s, id);
        let r = after_delete(s, id);
        assert forall|a: int, b: int| 0 <= a < b < r.len() implies #[trigger] r[a].todo_id
            < #[trigger] r[b].todo_id by {
            if a >= k {
                assert(s[a + 1].todo_id < s[b + 1].todo_id);
            } else if b >= k {
                assert(s[a].todo_id < s[b + 1].todo_id);
            }
        }
        assert forall|a: int| 0 <= a < r.len() implies #[trigger] r[a].todo_id >= 1 by {
            if a >= k {
                assert(s[a + 1].todo_id >= 1);
            }
        }
    }
}

/// Replacement keeps identifiers ascending, since the identifier is pinned.
pub proof fn lemma_update_keeps_ascending(s: Seq<TodoView>, id: i32, t: TodoView)
    requires
        ids_ascending(s),
    ensures
        ids_ascending(after_update(s, id, t)),
{
    if has_id(s, id) {
        let r = after_update(s, id, t);
        assert forall|a: int, b: int| 0 <= a < b < r.len() implies #[trigger] r[a].todo_id
            < #[trigger] r[b].todo_id by {
            assert(s[a].todo_id < s[b].todo_id);
        }
        assert forall|a: int| 0 <= a < r.len() implies #[trigger] r[a].todo_id >= 1 by {
            assert(s[a].todo_id >= 1);
        }
    }
}

/// The ordered collection of todos that the in-memory backend guards.
pub struct TodoStore {
    todos: Vec<Todo>,
}

impl View for TodoStore {
    type V = Seq<TodoView>;

    closed spec fn view(&self) -> Seq<TodoView> {
        views(self.todos@)
    }
}

impl TodoStore {
    /// The store's invariant: identifiers ascending, hence unique.
    pub open spec fn wf(&self) -> bool {
        ids_ascending(self@)
    }

    /// An empty store.
    pub fn new() -> (r: TodoStore)
        ensures
            r@ == Seq::<TodoView>::empty(),
            r.wf(),
    {
        let r = TodoStore { todos: Vec::new() };
        assert(r@ =~= Seq::<TodoView>::empty());
        r
    }

    /// The position of the todo with identifier `id`, scanning in order.
    fn find(&self, id: i32) -> (r: Option<usize>)
        requires
            self.wf(),
        ensures
            match r {
                Some(i) => i < self@.len() && self@[i as int].todo_id == id && index_of(self@, id)
                    == i,
                None => !has_id(self@, id),
            },
    {
        let mut i: usize = 0;
        while i < self.todos.len()
            invariant
                self.wf(),
                i <= self.todos@.len(),
                self@.len() == self.todos@.len(),
                forall|k: int| 0 <= k < i ==> #[trigger] self@[k].todo_id != id,
            decreases self.todos@.len() - i,
        {
            if self.todos[i].todo_id == id {
                proof {
                    lemma_index_of_unique(self@, id, i as int);
                }
                return Some(i);
            }
            i = i + 1;
        }
        None
    }

    /// A snapshot of every stored todo, in insertion order.
    pub fn get_todos(&self) -> (r: Vec<Todo>)
        ensures
            views(r@) == self@,
            r@.len() == self@.len(),
    {
        let mut r: Vec<Todo> = Vec::new();
        let mut i: usize = 0;
        while i < self.todos.len()
            invariant
                i <= self.todos@.len(),
                r@ == self.todos@.subrange(0, i as int),
            decreases self.todos@.len() - i,
        {
            r.push(self.todos[i].duplicate());
            i = i + 1;
            assert(r@ =~= self.todos@.subrange(0, i as int));
        }
        assert(self.todos@.subrange(0, i as int) =~= self.todos@);
        r
    }

    /// Stores `new` under the next identifier and returns the stored todo; fails,
    /// leaving the store unchanged, only when that identifier would not fit in an `i32`.
    pub fn create_todo(&mut self, new: NewTodo) -> (r: Result<Todo, std::fmt::Error>)
        requires
            old(self).wf(),
        ensures
            final(self).wf(),
            final(self)@ == after_create(old(self)@, new@),
            create_returns(old(self)@, new@, r),
    {
        let n = self.todos.len();
        let last: i32 = if n == 0 {
            0
        } else {
            self.todos[n - 1].todo_id
        };
        if last == i32::MAX {
            return Err(std::fmt::Error);
        }
        let t = new.into_todo(last + 1);
        let ghost before = self@;
        self.todos.push(t.duplicate());
        proof {
            assert(self@ =~= before.push(t@));
            lemma_create_keeps_ascending(before, new@);
        }
        Ok(t)
    }

    /// The todo stored under `id`, or `None` when there is none.
    pub fn get_todo_by_id(&self, id: i32) -> (r: Option<Todo>)
        requires
            self.wf(),
        ensures
            get_returns(self@, id, r),
    {
        match self.find(id) {
            Some(i) => Some(self.todos[i].duplicate()),
            None => None,
        }
    }

    /// Removes the todo stored under `id`, keeping the others in order, and returns
    /// the position it held; `None`, with nothing changed, when there is none.
    pub fn delete_todo_by_id(&mut self, id: i32) -> (r: Option<usize>)
        requires
            old(self).wf(),
        ensures
            final(self).wf(),
            final(self)@ == after_delete(old(self)@, id),
            delete_returns(old(self)@, id, r),
    {
        match self.find(id) {
            Some(i) => {
                let ghost before = self@;
                self.todos.remove(i);
                proof {
                    assert(self@ =~= before.remove(i as int));
                    lemma_delete_keeps_ascending(before, id);
                }
                Some(i)
            },
            None => None,
        }
    }

    /// Replaces the todo stored under `id` by `todo`, whose identifier is forced
    /// to `id`, and returns the stored value; `None`, with nothing changed, when
    /// no todo is stored under `id`.
    pub fn update_todo_by_id(&mut self, id: i32, todo: Todo) -> (r: Option<Todo>)
        requires
            old(self).wf(),
        ensures
            final(self).wf(),
            final(self)@ == after_update(old(self)@, id, todo@),
            update_returns(old(self)@, id, todo@, r),
    {
        match self.find(id) {
            Some(i) => {
                let t = todo.with_id(id);
                let ghost before = self@;
                self.todos.set(i, t.duplicate());
                proof {
                    assert(self@ =~= before.update(i as int, t@));
                    lemma_update_keeps_ascending(before, id, todo@);
                }
                Some(t)
            },
            None => None,
        }
    }
}

} // verus!
