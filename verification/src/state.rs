//! The stage of start-up the application is in.

use vstd::prelude::*;

verus! {

/// Whether the assets the world needs are still loading.
#[derive(Copy, Clone, Debug, PartialEq, Eq, Hash, Structural)]
pub enum LoadingState {
    /// Assets are being loaded; the world is not shown yet.
    Loading,
    /// Everything is loaded and the world runs.
    Initialized,
}

impl Default for LoadingState {
    /// Start-up begins with loading.
    fn default() -> (state: LoadingState)
        ensures
            state == LoadingState::Loading,
    {
        LoadingState::Loading
    }
}

} // verus!
