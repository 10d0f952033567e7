//! Where the user is: the sources of a position and the service that asks
//! them.

use vstd::prelude::*;

pub mod amap_config;
pub mod amap_types;
pub mod delivery_service;
pub mod ingredient_store;
pub mod restaurant_finder;

verus! {

/// How a position was found.
#[derive(Debug, Clone, Copy, PartialEq, Eq, Structural)]
pub enum LocationSource {
    GPS,
    Network,
    IPAddress,
}

/// A postal address, as far as it is known.
#[derive(Debug, Clone)]
pub struct Address {
    pub country: Option<String>,
    pub province: Option<String>,
    pub city: Option<String>,
    pub district: Option<String>,
    pub street: Option<String>,
    pub postal_code: Option<String>,
}

/// Where the data of places comes from.
#[derive(Debug, Clone, Copy, PartialEq, Eq, Structural)]
pub enum DataSource {
    /// Sample data, for use without a network.
    Demo,
    /// The map service.
    AmapAPI,
}

/// The service that finds the user's position.
pub struct LocationService {
    ip_geolocation_api: String,
    data_source: DataSource,
    amap_ready: bool,
}

impl LocationService {
    /// The source of data that the service uses.
    pub closed spec fn source(&self) -> DataSource {
        self.data_source
    }

    /// Whether the service holds a client of the map service.
    pub closed spec fn has_amap(&self) -> bool {
        self.amap_ready
    }

    /// The address of the service that locates by network address.
    pub closed spec fn ip_service(&self) -> Seq<char> {
        self.ip_geolocation_api@
    }

    /// The service's invariant: it names the map service as its source
    /// exactly when it holds a client of it.
    pub open spec fn is_consistent(&self) -> bool {
        self.has_amap() == (self.source() == DataSource::AmapAPI)
    }

    /// A service on sample data.
    pub fn new() -> (service: LocationService)
        ensures
            service.is_consistent(),
            service.source() == DataSource::Demo,
            !service.has_amap(),
            service.ip_service() == "http://ip-api.com/json"@,
    {
        Self::new_with_source(DataSource::Demo, false)
    }

    /// A service on the source asked for. The map service is used only if it
    /// is asked for and a client for it could be made (`client_ready`);
    /// otherwise the service falls back on sample data.
    pub fn new_with_source(data_source: DataSource, client_ready: bool) -> (service:
        LocationService)
        ensures
            service.is_consistent(),
            service.has_amap() == (data_source == DataSource::AmapAPI && client_ready),
            service.source() == (if data_source == DataSource::AmapAPI && client_ready {
                DataSource::AmapAPI
            } else {
                DataSource::Demo
            }),
            service.ip_service() == "http://ip-api.com/json"@,
    {
        let amap_ready = match data_source {
            DataSource::AmapAPI => client_ready,
            DataSource::Demo => false,
        };
        LocationService {
            ip_geolocation_api: "http://ip-api.com/json".to_owned(),
            data_source: if amap_ready {
                DataSource::AmapAPI
            } else {
                DataSource::Demo
            },
            amap_ready,
        }
    }

    /// The source of data that the service uses.
    pub fn get_data_source(&self) -> (source: &DataSource)
        ensures
            *source == self.source(),
    {
        &self.data_source
    }

    /// Tells whether the service holds a client of the map service.
    pub fn is_amap_available(&self) -> (r: bool)
        ensures
            r == self.has_amap(),
    {
        self.amap_ready
    }
}

impl Default for LocationService {
    /// A service on sample data.
    fn default() -> (service: LocationService)
        ensures
            service.is_consistent(),
            service.source() == DataSource::Demo,
            !service.has_amap(),
    {
        LocationService::new()
    }
}

} // verus!
