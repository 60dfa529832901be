//! Participant ("brawler") registration, over a shared repository handle.
use vstd::prelude::*;
use std::sync::Arc;

verus! {

/// The registration service; it shares its repository with other services.
pub struct BrawlersUseCase<T> {
    brawler_repository: Arc<T>,
}

impl<T> BrawlersUseCase<T> {
    /// The repository handle the service works through.
    pub closed spec fn repository(&self) -> Arc<T> {
        self.brawler_repository
    }

    /// A service working through `brawler_repository`.
    pub fn new(brawler_repository: Arc<T>) -> (r: Self)
        ensures
            r.repository() == brawler_repository,
    {
        BrawlersUseCase { brawler_repository }
    }
}

} // verus!
