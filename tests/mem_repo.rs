use todo_rust_backend::models::todo::{NewTodo, Todo};
use todo_rust_backend::repository::mem_repo::MemRepo;
use todo_rust_backend::repository::todo_repo::TodoRepo;

fn create_test_repo() -> MemRepo {
    MemRepo::new()
}

fn create_new_todo(title: &str, description: Option<&str>) -> NewTodo {
    NewTodo {
        title: title.to_string(),
        description: description.map(|s| s.to_string()),
        created_at: None,
        completed: Some(false),
    }
}

#[test]
fn test_create_todo() {
    let mut repo = create_test_repo();
    let new_todo = create_new_todo("Test Todo", Some("Test Description"));

    let result = repo.create_todo(new_todo);
    assert!(result.is_ok());

    let todo = result.unwrap();
    assert_eq!(todo.todo_id, 1);
    assert_eq!(todo.title, "Test Todo");
    assert_eq!(todo.description, Some("Test Description".to_string()));
    assert_eq!(todo.completed, Some(false));
}

#[test]
fn test_create_multiple_todos() {
    let mut repo = create_test_repo();

    let todo1 = create_new_todo("First Todo", Some("First Description"));
    let result1 = repo.create_todo(todo1);
    assert!(result1.is_ok());
    assert_eq!(result1.unwrap().todo_id, 1);

    let todo2 = create_new_todo("Second Todo", Some("Second Description"));
    let result2 = repo.create_todo(todo2);
    assert!(result2.is_ok());
    assert_eq!(result2.unwrap().todo_id, 2);

    let todo3 = create_new_todo("Third Todo", None);
    let result3 = repo.create_todo(todo3);
    assert!(result3.is_ok());
    assert_eq!(result3.unwrap().todo_id, 3);
}

#[test]
fn test_get_todos_empty() {
    let repo = create_test_repo();
    let todos = repo.get_todos();
    assert_eq!(todos.len(), 0);
}

#[test]
fn test_get_todos_with_data() {
    let mut repo = create_test_repo();

    // Create multiple todos
    repo.create_todo(create_new_todo("Todo 1", Some("Description 1")))
        .unwrap();
    repo.create_todo(create_new_todo("Todo 2", Some("Description 2")))
        .unwrap();
    repo.create_todo(create_new_todo("Todo 3", None))
        .unwrap();

    let todos = repo.get_todos();
    assert_eq!(todos.len(), 3);
    assert_eq!(todos[0].title, "Todo 1");
    assert_eq!(todos[1].title, "Todo 2");
    assert_eq!(todos[2].title, "Todo 3");
}

#[test]
fn test_get_todo_by_id_success() {
    let mut repo = create_test_repo();

    let created = repo
        .create_todo(create_new_todo("Test Todo", Some("Test Description")))
        .unwrap();

    let found = repo.get_todo_by_id(created.todo_id);
    assert!(found.is_some());

    let todo = found.unwrap();
    assert_eq!(todo.todo_id, created.todo_id);
    assert_eq!(todo.title, "Test Todo");
    assert_eq!(todo.description, Some("Test Description".to_string()));
}

#[test]
fn test_get_todo_by_id_not_found() {
    let repo = create_test_repo();
    let found = repo.get_todo_by_id(999);
    assert!(found.is_none());
}

#[test]
fn test_get_todo_by_id_multiple_todos() {
    let mut repo = create_test_repo();

    // Create multiple todos
    let todo1 = repo
        .create_todo(create_new_todo("First", Some("First Description")))
        .unwrap();
    let todo2 = repo
        .create_todo(create_new_todo("Second", Some("Second Description")))
        .unwrap();
    let todo3 = repo
        .create_todo(create_new_todo("Third", Some("Third Description")))
        .unwrap();

    // Verify we can get each one individually
    let found1 = repo.get_todo_by_id(todo1.todo_id);
    assert!(found1.is_some());
    assert_eq!(found1.unwrap().title, "First");

    let found2 = repo.get_todo_by_id(todo2.todo_id);
    assert!(found2.is_some());
    assert_eq!(found2.unwrap().title, "Second");

    let found3 = repo.get_todo_by_id(todo3.todo_id);
    assert!(found3.is_some());
    assert_eq!(found3.unwrap().title, "Third");
}

#[test]
fn test_update_todo_by_id_success() {
    let mut repo = create_test_repo();

    let created = repo
        .create_todo(create_new_todo("Original Title", Some("Original Description")))
        .unwrap();

    let mut updated_todo = created.clone();
    updated_todo.title = "Updated Title".to_string();
    updated_todo.description = Some("Updated Description".to_string());
    updated_todo.completed = Some(true);

    let result = repo.update_todo_by_id(created.todo_id, updated_todo);
    assert!(result.is_some());

    let updated = result.unwrap();
    assert_eq!(updated.todo_id, created.todo_id);
    assert_eq!(updated.title, "Updated Title");
    assert_eq!(updated.description, Some("Updated Description".to_string()));
    assert_eq!(updated.completed, Some(true));

    // Verify the change persisted
    let fetched = repo.get_todo_by_id(created.todo_id);
    assert!(fetched.is_some());
    assert_eq!(fetched.unwrap().title, "Updated Title");
}

#[test]
fn test_update_todo_by_id_not_found() {
    let mut repo = create_test_repo();

    let fake_todo = Todo {
        todo_id: 999,
        title: "Fake Todo".to_string(),
        description: Some("Doesn't exist".to_string()),
        created_at: None,
        completed: Some(false),
    };

    let result = repo.update_todo_by_id(999, fake_todo);
    assert!(result.is_none());
}

#[test]
fn test_update_todo_partial_fields() {
    let mut repo = create_test_repo();

    let created = repo
        .create_todo(create_new_todo("Original", Some("Description")))
        .unwrap();

    // Update only the completed status
    let mut updated_todo = created.clone();
    updated_todo.completed = Some(true);

    let result = repo.update_todo_by_id(created.todo_id, updated_todo);
    assert!(result.is_some());

    let updated = result.unwrap();
    assert_eq!(updated.title, "Original");
    assert_eq!(updated.description, Some("Description".to_string()));
    assert_eq!(updated.completed, Some(true));
}

#[test]
fn test_delete_todo_by_id_success() {
    let mut repo = create_test_repo();

    let created = repo
        .create_todo(create_new_todo("To Delete", Some("Will be removed")))
        .unwrap();

    let deleted = repo.delete_todo_by_id(created.todo_id);
    assert!(deleted.is_some());

    // Verify it's actually deleted
    let not_found = repo.get_todo_by_id(created.todo_id);
    assert!(not_found.is_none());
}

#[test]
fn test_delete_todo_by_id_not_found() {
    let mut repo = create_test_repo();
    let result = repo.delete_todo_by_id(999);
    assert!(result.is_none());
}

#[test]
fn test_delete_todo_from_multiple() {
    let mut repo = create_test_repo();

    // Create multiple todos
    let todo1 = repo
        .create_todo(create_new_todo("First", Some("First Description")))
        .unwrap();
    let todo2 = repo
        .create_todo(create_new_todo("Second", Some("Second Description")))
        .unwrap();
    let todo3 = repo
        .create_todo(create_new_todo("Third", Some("Third Description")))
        .unwrap();

    // Delete the middle one
    let deleted = repo.delete_todo_by_id(todo2.todo_id);
    assert!(deleted.is_some());

    // Verify the list now has 2 items
    let todos = repo.get_todos();
    assert_eq!(todos.len(), 2);

    // Verify the correct todos remain
    assert_eq!(todos[0].todo_id, todo1.todo_id);
    assert_eq!(todos[1].todo_id, todo3.todo_id);

    // Verify we can't get the deleted todo
    let not_found = repo.get_todo_by_id(todo2.todo_id);
    assert!(not_found.is_none());
}

#[test]
fn test_repository_consistency() {
    let mut repo = create_test_repo();

    // Create
    let created = repo
        .create_todo(create_new_todo("Consistency Test", Some("Testing consistency")))
        .unwrap();

    // Read
    let fetched = repo.get_todo_by_id(created.todo_id).unwrap();
    assert_eq!(created.todo_id, fetched.todo_id);
    assert_eq!(created.title, fetched.title);

    // Update
    let mut updated_todo = fetched.clone();
    updated_todo.completed = Some(true);
    let updated = repo
        .update_todo_by_id(created.todo_id, updated_todo)
        .unwrap();
    assert_eq!(updated.completed, Some(true));

    // Verify update persisted
    let refetched = repo.get_todo_by_id(created.todo_id).unwrap();
    assert_eq!(refetched.completed, Some(true));

    // Delete
    let deleted = repo.delete_todo_by_id(created.todo_id);
    assert!(deleted.is_some());

    // Verify deletion
    let not_found = repo.get_todo_by_id(created.todo_id);
    assert!(not_found.is_none());

    // Verify empty list
    let todos = repo.get_todos();
    assert_eq!(todos.len(), 0);
}

#[test]
fn test_create_todo_without_description() {
    let mut repo = create_test_repo();
    let new_todo = create_new_todo("No Description Todo", None);

    let result = repo.create_todo(new_todo);
    assert!(result.is_ok());

    let todo = result.unwrap();
    assert_eq!(todo.title, "No Description Todo");
    assert_eq!(todo.description, None);
}

#[test]
fn test_todo_id_increments() {
    let mut repo = create_test_repo();

    let todo1 = repo
        .create_todo(create_new_todo("First", None))
        .unwrap();
    assert_eq!(todo1.todo_id, 1);

    let todo2 = repo
        .create_todo(create_new_todo("Second", None))
        .unwrap();
    assert_eq!(todo2.todo_id, 2);

    let todo3 = repo
        .create_todo(create_new_todo("Third", None))
        .unwrap();
    assert_eq!(todo3.todo_id, 3);
}

#[test]
fn test_todo_id_resets_after_empty() {
    let mut repo = create_test_repo();

    // Create and delete a todo
    let todo1 = repo
        .create_todo(create_new_todo("First", None))
        .unwrap();
    assert_eq!(todo1.todo_id, 1);

    repo.delete_todo_by_id(todo1.todo_id);

    // After all todos are deleted, ID resets to 1 (in-memory repo behavior)
    let todo2 = repo
        .create_todo(create_new_todo("Second", None))
        .unwrap();
    assert_eq!(todo2.todo_id, 1);
}
