use vstd::prelude::*;

pub mod text;
pub mod routes;
pub mod auth;
pub mod gate;
pub mod errors;
pub mod timer;
pub mod http;
pub mod context;
pub mod pipeline;
pub mod laws;

verus! {

/// Configuration shared read-only by every request: the token signing secret
/// and the lifetime, in seconds, of the tokens that are issued.
#[derive(Debug, Clone)]
pub struct AppState {
    pub jwt_secret_key: String,
    pub jwt_lifetime: i64,
}

} // verus!
