//! The finder of deliveries near a position.

use vstd::prelude::*;
use crate::location::LocationService;

verus! {

/// Finds deliveries near a position that its location service gives.
pub struct DeliveryServiceFinder {
    location_service: LocationService,
}

impl DeliveryServiceFinder {
    /// The location service that the finder asks.
    pub closed spec fn service(&self) -> LocationService {
        self.location_service
    }

    /// A finder on the given location service.
    pub fn new(location_service: LocationService) -> (finder: DeliveryServiceFinder)
        ensures
            finder.service() == location_service,
    {
        DeliveryServiceFinder { location_service }
    }
}

} // verus!
