//! An in-memory todo store: a single ordered collection of todo items with
//! create/read/update/delete operations, title-uniqueness on creation,
//! id-uniqueness as an invariant, and offset pagination.

pub mod laws;
pub mod model;
pub mod pagination;
pub mod store;
mod trusted;

pub use store::Store;
pub use model::Todo;
pub use model::TodoError;
pub use model::UpdateTodo;
pub use model::QueryOptions;
