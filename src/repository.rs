pub mod laws;
pub mod mem_repo;
pub mod store;
pub mod todo_repo;
