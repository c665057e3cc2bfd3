//! Lifecycle coordination for apps in a workspace: request validation,
//! update changesets, soft deletion into the trash, and the step machine
//! that sequences calls into the app, view and trash stores.

pub mod errors;
pub mod entities;
pub mod trash;
pub mod coordinator;
pub mod laws;
