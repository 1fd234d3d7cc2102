//! Properties of the store's operations, stated over the same spec functions
//! that the operations' contracts use.
use vstd::prelude::*;
use crate::models::todo::{NewTodoView, TodoView};
use crate::repository::store::{
    after_create, after_delete, after_update, can_create, created, has_id, ids_ascending,
    index_of, lemma_create_keeps_ascending, lemma_index_of_unique,
    lemma_update_keeps_ascending, lookup, next_id,
};

verus! {

/// The contents after creating each payload of `ps` in turn, starting from `s`.
pub open spec fn after_creates(s: Seq<TodoView>, ps: Seq<NewTodoView>) -> Seq<TodoView>
    decreases ps.len(),
{
    if ps.len() == 0 {
        s
    } else {
        after_create(after_creates(s, ps.drop_last()), ps.last())
    }
}

/// What an empty store holds after creating `ps` in turn: each payload under
/// its position plus one.
pub open spec fn numbered(ps: Seq<NewTodoView>) -> Seq<TodoView> {
    Seq::new(ps.len(), |k: int| ps[k].with_id((k + 1) as i32))
}

proof fn lemma_creates_from_empty(ps: Seq<NewTodoView>)
    requires
        ps.len() <= i32::MAX,
    ensures
        after_creates(Seq::empty(), ps) == numbered(ps),
    decreases ps.len(),
{
    if ps.len() > 0 {
        let prefix = ps.drop_last();
        lemma_creates_from_empty(prefix);
        let before = after_creates(Seq::empty(), prefix);
        assert(next_id(before) == ps.len());
        assert(after_creates(Seq::empty(), ps) =~= numbered(ps));
    } else {
        assert(after_creates(Seq::empty(), ps) =~= numbered(ps));
    }
}

/// Creating payloads one after another in an empty store assigns the
/// identifiers 1, 2, ..., N in creation order: the k-th creation (from 0)
/// succeeds and returns its payload under identifier k + 1, and the store then
/// holds exactly those todos, in that order.
pub proof fn lemma_sequential_ids(ps: Seq<NewTodoView>)
    requires
        ps.len() <= i32::MAX,
    ensures
        forall|k: int|
            0 <= k < ps.len() ==> {
                let before = #[trigger] after_creates(Seq::empty(), ps.take(k));
                &&& can_create(before)
                &&& created(before, ps[k]) == ps[k].with_id((k + 1) as i32)
            },
        after_creates(Seq::empty(), ps) == numbered(ps),
{
    lemma_creates_from_empty(ps);
    assert forall|k: int| 0 <= k < ps.len() implies {
        let before = #[trigger] after_creates(Seq::empty(), ps.take(k));
        &&& can_create(before)
        &&& created(before, ps[k]) == ps[k].with_id((k + 1) as i32)
    } by {
        lemma_creates_from_empty(ps.take(k));
        let before = after_creates(Seq::empty(), ps.take(k));
        assert(next_id(before) == k + 1);
    }
}

/// A todo just created gets an identifier that no stored todo had, and is then
/// found under it, equal to the value that creation returned.
pub proof fn lemma_get_after_create(s: Seq<TodoView>, n: NewTodoView)
    requires
        ids_ascending(s),
        can_create(s),
    ensures
        !has_id(s, created(s, n).todo_id),
        lookup(after_create(s, n), created(s, n).todo_id) == Some(created(s, n)),
{
    if has_id(s, created(s, n).todo_id) {
        let i = index_of(s, created(s, n).todo_id);
        if i + 1 < s.len() {
            assert(s[i].todo_id < s[s.len() - 1].todo_id);
        }
    }
    let r = after_create(s, n);
    lemma_create_keeps_ascending(s, n);
    lemma_index_of_unique(r, created(s, n).todo_id, s.len() as int);
}

/// Deleting a stored identifier shortens the listing by exactly one, and a
/// lookup of that identifier afterwards finds nothing.
pub proof fn lemma_delete_removes_one(s: Seq<TodoView>, id: i32)
    requires
        ids_ascending(s),
        has_id(s, id),
    ensures
        after_delete(s, id).len() == s.len() - 1,
        !has_id(after_delete(s, id), id),
        lookup(after_delete(s, id), id) is None,
{
    let k = index_of(s, id);
    let r = after_delete(s, id);
    if has_id(r, id) {
        let j = index_of(r, id);
        if j < k {
            assert(s[j].todo_id < s[k].todo_id);
        } else {
            assert(s[k].todo_id < s[j + 1].todo_id);
        }
    }
}

/// Lookup and deletion agree on absence: an identifier is reported absent by
/// lookup exactly when deletion reports it absent (it is not stored), deleting
/// an absent identifier changes nothing, and once deleted an identifier is
/// absent for both.
pub proof fn lemma_absence_agrees(s: Seq<TodoView>, id: i32)
    requires
        ids_ascending(s),
    ensures
        lookup(s, id) is None <==> !has_id(s, id),
        !has_id(s, id) ==> after_delete(s, id) == s,
        !has_id(after_delete(s, id), id),
        lookup(after_delete(s, id), id) is None,
{
    if has_id(s, id) {
        lemma_delete_removes_one(s, id);
    }
}

/// Replacing a stored todo by a copy of itself that differs only in
/// `completed` changes only `completed`: the stored sequence differs from the
/// old one at that todo's position alone, and a later lookup returns the old
/// todo with the new `completed`.
pub proof fn lemma_update_completed_only(s: Seq<TodoView>, id: i32, c: Option<bool>)
    requires
        ids_ascending(s),
        has_id(s, id),
    ensures
        ({
            let t = TodoView { completed: c, ..lookup(s, id)->0 };
            &&& after_update(s, id, t) == s.update(index_of(s, id), t)
            &&& lookup(after_update(s, id, t), id) == Some(t)
        }),
{
    let k = index_of(s, id);
    let t = TodoView { completed: c, ..s[k] };
    assert(t.with_id(id) == t);
    lemma_update_keeps_ascending(s, id, t);
    lemma_index_of_unique(after_update(s, id, t), id, k);
}

/// Whatever identifier the replacement carries, the stored todo is the
/// replacement under the lookup key.
pub proof fn lemma_update_pins_id(s: Seq<TodoView>, id: i32, t: TodoView)
    requires
        ids_ascending(s),
        has_id(s, id),
    ensures
        lookup(after_update(s, id, t), id) == Some(t.with_id(id)),
        lookup(after_update(s, id, t), id)->0.todo_id == id,
{
    let k = index_of(s, id);
    lemma_update_keeps_ascending(s, id, t);
    lemma_index_of_unique(after_update(s, id, t), id, k);
}

} // verus!
