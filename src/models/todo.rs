use vstd::prelude::*;

verus! {

/// chrono::NaiveDateTime, a date and time without a time zone: declared so
/// that a todo can carry its creation time, which the store passes through
/// unchanged and never inspects; nothing about it is assumed.
#[verifier::external_type_specification]
#[verifier::external_body]
pub struct ExNaiveDateTime(chrono::NaiveDateTime);

/// A stored todo item; `todo_id` is assigned by the repository.
#[derive(Debug, Clone)]
pub struct Todo {
    pub todo_id: i32,
    pub title: String,
    pub description: Option<String>,
    pub created_at: Option<chrono::NaiveDateTime>,
    pub completed: Option<bool>,
}

/// The payload of a creation: a todo without its identifier.
#[derive(Debug, Clone)]
pub struct NewTodo {
    pub title: String,
    pub description: Option<String>,
    pub created_at: Option<chrono::NaiveDateTime>,
    pub completed: Option<bool>,
}

/// The mathematical value of a todo: its text fields as character sequences.
pub struct TodoView {
    pub todo_id: i32,
    pub title: Seq<char>,
    pub description: Option<Seq<char>>,
    pub created_at: Option<chrono::NaiveDateTime>,
    pub completed: Option<bool>,
}

/// The mathematical value of a creation payload.
pub struct NewTodoView {
    pub title: Seq<char>,
    pub description: Option<Seq<char>>,
    pub created_at: Option<chrono::NaiveDateTime>,
    pub completed: Option<bool>,
}

pub open spec fn text_view(s: Option<String>) -> Option<Seq<char>> {
    match s {
        Some(t) => Some(t@),
        None => None,
    }
}

impl View for Todo {
    type V = TodoView;

    open spec fn view(&self) -> TodoView {
        TodoView {
            todo_id: self.todo_id,
            title: self.title@,
            description: text_view(self.description),
            created_at: self.created_at,
            completed: self.completed,
        }
    }
}

impl View for NewTodo {
    type V = NewTodoView;

    open spec fn view(&self) -> NewTodoView {
        NewTodoView {
            title: self.title@,
            description: text_view(self.description),
            created_at: self.created_at,
            completed: self.completed,
        }
    }
}

impl TodoView {
    /// This value with its identifier replaced by `id`.
    pub open spec fn with_id(self, id: i32) -> TodoView {
        TodoView { todo_id: id, ..self }
    }
}

impl NewTodoView {
    /// The todo that this payload becomes once it is given the identifier `id`.
    pub open spec fn with_id(self, id: i32) -> TodoView {
        TodoView {
            todo_id: id,
            title: self.title,
            description: self.description,
            created_at: self.created_at,
            completed: self.completed,
        }
    }
}

fn copy_text(s: &Option<String>) -> (r: Option<String>)
    ensures
        r == *s,
{
    match s {
        Some(t) => Some(t.clone()),
        None => None,
    }
}

impl Todo {
    /// A field-for-field copy of this todo.
    pub fn duplicate(&self) -> (r: Todo)
        ensures
            r == *self,
    {
        Todo {
            todo_id: self.todo_id,
            title: self.title.clone(),
            description: copy_text(&self.description),
            created_at: self.created_at,
            completed: self.completed,
        }
    }

    /// This todo with its identifier replaced by `id`, every other field kept.
    pub fn with_id(self, id: i32) -> (r: Todo)
        ensures
            r@ == self@.with_id(id),
    {
        Todo { todo_id: id, ..self }
    }
}

impl NewTodo {
    /// The todo that this payload becomes once it is given the identifier `id`.
    pub fn into_todo(self, id: i32) -> (r: Todo)
        ensures
            r@ == self@.with_id(id),
    {
        Todo {
            todo_id: id,
            title: self.title,
            description: self.description,
            created_at: self.created_at,
            completed: self.completed,
        }
    }
}

} // verus!
