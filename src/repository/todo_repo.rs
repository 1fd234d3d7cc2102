use vstd::prelude::*;
use crate::models::todo::{NewTodo, Todo};

verus! {

/// The operations every storage backend offers. Absence (`None`) is a normal
/// outcome; only `create_todo` can signal a storage failure. Operations that
/// change the contents take the backend exclusively.
pub trait TodoRepo: Send + Sync {
    /// Every stored todo, in the backend's own repeatable order.
    fn get_todos(&self) -> Vec<Todo>;

    /// Stores `new` under a fresh identifier and returns the stored todo.
    fn create_todo(&mut self, new: NewTodo) -> (r: Result<Todo, std::fmt::Error>)
        ensures
            r matches Ok(t) ==> t.title@ == new.title@ && t@.description == new@.description
                && t.completed == new.completed,
    ;

    /// The todo stored under `id`, if any.
    fn get_todo_by_id(&self, id: i32) -> (r: Option<Todo>)
        ensures
            r matches Some(t) ==> t.todo_id == id,
    ;

    /// Removes the todo stored under `id`; `None` when there is none.
    fn delete_todo_by_id(&mut self, id: i32) -> Option<usize>;

    /// Replaces every field of the todo stored under `id` by those of `todo`,
    /// except that the identifier stays `id`; `None` when there is none.
    fn update_todo_by_id(&mut self, id: i32, todo: Todo) -> (r: Option<Todo>)
        ensures
            r matches Some(t) ==> t@ == todo@.with_id(id),
    ;
}

} // verus!
