//! The finder of shops that sell ingredients near a position.

use vstd::prelude::*;
use crate::location::LocationService;

verus! {

/// Finds shops that sell ingredients near a position that its location service gives.
pub struct IngredientStoreFinder {
    location_service: LocationService,
}

impl IngredientStoreFinder {
    /// The location service that the finder asks.
    pub closed spec fn service(&self) -> LocationService {
        self.location_service
    }

    /// A finder on the given location service.
    pub fn new(location_service: LocationService) -> (finder: IngredientStoreFinder)
        ensures
            finder.service() == location_service,
    {
        IngredientStoreFinder { location_service }
    }
}

} // verus!
