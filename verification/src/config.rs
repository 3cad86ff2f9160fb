//! What every request is served with.

use vstd::prelude::*;

use crate::store::Store;

verus! {

/// The state shared by all requests: the library and the secret that signs
/// credentials.
pub struct AppState {
    pub store: Store,
    pub secret_key: String,
}

} // verus!
