//! Durable storage of the application state.
use vstd::prelude::*;

use crate::domain::AppState;

verus! {

/// Why the state could not be read or written.
#[derive(Clone, Copy, Debug, PartialEq, Eq, Structural)]
pub enum StateStoreError {
    ReadFailed,
    WriteFailed,
}

/// Where the application state is kept between runs. Implementations decide
/// how; callers treat every outcome as possible.
pub trait StateStore {
    /// Reads the last saved state.
    fn load(&self) -> Result<AppState, StateStoreError>;

    /// Replaces the saved state with `state`.
    fn save(&self, state: &AppState) -> Result<(), StateStoreError>;
}

} // verus!
