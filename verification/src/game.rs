//! The game service, as far as it touches this library: it owns a game
//! repository and passes calls through to it. The repository itself — game
//! records and their storage — is an external collaborator, so only the
//! service's construction is modeled here, over an abstract repository.

use vstd::prelude::*;

verus! {

/// Passes game calls through to the repository it was built around.
pub struct InertiaGameService<R> {
    pub repository: R,
}

impl<R> InertiaGameService<R> {
    /// Wraps the given repository; the service holds exactly what it was
    /// handed.
    pub fn new(repository: R) -> (s: Self)
        ensures
            s.repository == repository,
    {
        InertiaGameService { repository }
    }
}

} // verus!
