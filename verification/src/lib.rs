//! Players REST API: the player records, the collection that stores them,
//! the service operations on it and the decisions of the HTTP endpoints.

pub mod models;
pub mod routes;
pub mod services;
pub mod state;

use vstd::prelude::*;

verus! {

/// OpenAPI document for the Players REST API.
///
/// The document itself (paths, schemas and tags) is generated by the
/// program that serves the API; this marker names it for the library.
pub struct ApiDoc;

} // verus!
