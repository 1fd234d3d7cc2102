use vstd::prelude::*;
use crate::models::todo::{NewTodo, Todo, TodoView};
use crate::repository::store::{
    after_create, after_delete, after_update, create_returns, delete_returns, get_returns,
    ids_ascending, update_returns, views, TodoStore,
};
use crate::repository::todo_repo::TodoRepo;

verus! {

/// The in-memory backend: an ordered store of todos with sequential
/// identifiers. It is a single owner; callers that share it across threads
/// put it behind one lock that each operation holds for its whole duration.
pub struct MemRepo {
    store: TodoStore,
}

impl View for MemRepo {
    type V = Seq<TodoView>;

    closed spec fn view(&self) -> Seq<TodoView> {
        self.store@
    }
}

impl MemRepo {
    #[verifier::type_invariant]
    spec fn inv(&self) -> bool {
        self.store.wf()
    }

    /// A backend over an empty store.
    pub fn new() -> (r: MemRepo)
        ensures
            r@ == Seq::<TodoView>::empty(),
            ids_ascending(r@),
    {
        MemRepo { store: TodoStore::new() }
    }

    /// Takes the store out, leaving an empty one in its place.
    fn take_store(&mut self) -> (r: TodoStore)
        ensures
            r@ == old(self)@,
            r.wf(),
    {
        proof {
            use_type_invariant(&*self);
        }
        let mut store = TodoStore::new();
        std::mem::swap(&mut store, &mut self.store);
        store
    }
}

impl TodoRepo for MemRepo {
    fn get_todos(&self) -> (r: Vec<Todo>)
        ensures
            views(r@) == self@,
            r@.len() == self@.len(),
            ids_ascending(self@),
    {
        proof {
            use_type_invariant(self);
        }
        self.store.get_todos()
    }

    fn create_todo(&mut self, new: NewTodo) -> (r: Result<Todo, std::fmt::Error>)
        ensures
            ids_ascending(old(self)@),
            ids_ascending(final(self)@),
            final(self)@ == after_create(old(self)@, new@),
            create_returns(old(self)@, new@, r),
    {
        let mut store = self.take_store();
        let r = store.create_todo(new);
        self.store = store;
        r
    }

    fn get_todo_by_id(&self, id: i32) -> (r: Option<Todo>)
        ensures
            get_returns(self@, id, r),
            ids_ascending(self@),
    {
        proof {
            use_type_invariant(self);
        }
        self.store.get_todo_by_id(id)
    }

    fn delete_todo_by_id(&mut self, id: i32) -> (r: Option<usize>)
        ensures
            ids_ascending(old(self)@),
            ids_ascending(final(self)@),
            final(self)@ == after_delete(old(self)@, id),
            delete_returns(old(self)@, id, r),
    {
        let mut store = self.take_store();
        let r = store.delete_todo_by_id(id);
        self.store = store;
        r
    }

    fn update_todo_by_id(&mut self, id: i32, todo: Todo) -> (r: Option<Todo>)
        ensures
            ids_ascending(old(self)@),
            ids_ascending(final(self)@),
            final(self)@ == after_update(old(self)@, id, todo@),
            update_returns(old(self)@, id, todo@, r),
    {
        let mut store = self.take_store();
        let r = store.update_todo_by_id(id, todo);
        self.store = store;
        r
    }
}

} // verus!
