//! An in-memory todo list with server-rendered HTML: the records, the store
//! that keeps them in creation order, the rules of the four requests, and the
//! rendering of the list through a template.

pub mod todo;
pub mod store;
pub mod escape;
pub mod ident;
pub mod error;
pub mod render;
pub mod handlers;
pub mod router;
pub mod history;
