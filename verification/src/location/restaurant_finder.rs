//! The finder of restaurants near a position.

use vstd::prelude::*;
use crate::location::LocationService;

verus! {

/// Finds restaurants near a position that its location service gives.
pub struct RestaurantFinder {
    location_service: LocationService,
}

impl RestaurantFinder {
    /// The location service that the finder asks.
    pub closed spec fn service(&self) -> LocationService {
        self.location_service
    }

    /// A finder on the given location service.
    pub fn new(location_service: LocationService) -> (finder: RestaurantFinder)
        ensures
            finder.service() == location_service,
    {
        RestaurantFinder { location_service }
    }
}

} // verus!
