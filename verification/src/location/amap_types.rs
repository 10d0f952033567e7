//! The shapes of the map service's answers, field for field as the service
//! names them.

use vstd::prelude::*;

verus! {

/// The envelope of every answer of the map service, around the data of the call.
#[derive(Debug, Clone)]
pub struct AmapResponse<T> {
    pub status: String,
    pub info: String,
    pub infocode: String,
    pub data: T,
}

/// The answer to a lookup of an address of the network.
#[derive(Debug, Clone)]
pub struct IpLocationResponse {
    pub province: String,
    pub city: String,
    pub adcode: String,
    pub rectangle: String,
}

/// The answer to a lookup of a postal address.
#[derive(Debug, Clone)]
pub struct GeocodingResponse {
    pub geocodes: Vec<Geocode>,
}

/// One place that a postal address was resolved to; `location` is "longitude,latitude".
#[derive(Debug, Clone)]
pub struct Geocode {
    pub formatted_address: String,
    pub province: String,
    pub citycode: String,
    pub city: String,
    pub district: String,
    pub township: String,
    pub neighborhood: Option<NeighborhoodInfo>,
    pub building: Option<BuildingInfo>,
    pub adcode: String,
    pub street: String,
    pub number: String,
    pub location: String,
    pub level: String,
}

/// The neighbourhood of a resolved address.
#[derive(Debug, Clone)]
pub struct NeighborhoodInfo {
    pub name: String,
    pub neighborhood_type: String,
}

/// The building of a resolved address.
#[derive(Debug, Clone)]
pub struct BuildingInfo {
    pub name: String,
    pub building_type: String,
}

/// The answer to a lookup of coordinates.
#[derive(Debug, Clone)]
pub struct RegeocodeResponse {
    pub regeocode: RegeocodeInfo,
}

/// The address found for coordinates, with what lies around it.
#[allow(non_snake_case)]
#[derive(Debug, Clone)]
pub struct RegeocodeInfo {
    pub formatted_address: String,
    pub addressComponent: AddressComponent,
    pub pois: Vec<NearbyPoi>,
    pub roads: Vec<Road>,
    pub roadinters: Vec<RoadIntersection>,
    pub aois: Vec<Aoi>,
}

/// The parts of an address found for coordinates.
#[allow(non_snake_case)]
#[derive(Debug, Clone)]
pub struct AddressComponent {
    pub province: String,
    pub city: String,
    pub citycode: String,
    pub district: String,
    pub adcode: String,
    pub township: String,
    pub towncode: String,
    pub neighborhood: NeighborhoodComponent,
    pub building: BuildingComponent,
    pub streetNumber: StreetNumber,
}

/// The neighbourhood among the parts of an address.
#[derive(Debug, Clone)]
pub struct NeighborhoodComponent {
    pub name: String,
    pub component_type: String,
}

/// The building among the parts of an address.
#[derive(Debug, Clone)]
pub struct BuildingComponent {
    pub name: String,
    pub component_type: String,
}

/// The street and house number among the parts of an address.
#[derive(Debug, Clone)]
pub struct StreetNumber {
    pub street: String,
    pub number: String,
    pub location: String,
    pub direction: String,
    pub distance: String,
}

/// The answer to a search for places; `count` is the number of places as text.
#[derive(Debug, Clone)]
pub struct PoiSearchResponse {
    pub pois: Vec<AmapPoi>,
    pub count: String,
}

/// A place found by a search; `location` is "longitude,latitude".
#[derive(Debug, Clone)]
pub struct AmapPoi {
    pub id: String,
    pub name: String,
    pub poi_type: String,
    pub typecode: String,
    pub address: String,
    pub location: String,
    pub tel: Option<String>,
    pub distance: Option<String>,
    pub biz_type: Option<String>,
    pub rating: Option<String>,
    pub cost: Option<String>,
    pub business_area: Option<String>,
    pub cityname: Option<String>,
    pub provincename: Option<String>,
    pub adname: Option<String>,
    pub gridcode: Option<String>,
    pub shopinfo: Option<String>,
    pub photos: Option<Vec<PoiPhoto>>,
    pub children: Option<Vec<PoiChild>>,
}

/// A photo of a place.
#[derive(Debug, Clone)]
pub struct PoiPhoto {
    pub title: String,
    pub url: String,
}

/// A place inside another place.
#[derive(Debug, Clone)]
pub struct PoiChild {
    pub id: String,
    pub name: String,
    pub child_type: String,
    pub address: String,
    pub location: String,
    pub tel: Option<String>,
}

/// The answer to a request for a route.
#[derive(Debug, Clone)]
pub struct RouteResponse {
    pub route: RouteInfo,
}

/// A route request with the paths found for it.
#[derive(Debug, Clone)]
pub struct RouteInfo {
    pub origin: String,
    pub destination: String,
    pub paths: Vec<RoutePath>,
}

/// One path of a route; distance and duration are numbers as text.
#[derive(Debug, Clone)]
pub struct RoutePath {
    pub distance: String,
    pub duration: String,
    pub steps: Vec<RouteStep>,
}

/// One step of a path.
#[derive(Debug, Clone)]
pub struct RouteStep {
    pub instruction: String,
    pub orientation: String,
    pub distance: String,
    pub duration: String,
    pub polyline: String,
    pub action: String,
    pub assistant_action: Option<String>,
}

/// A place near looked-up coordinates.
#[derive(Debug, Clone)]
pub struct NearbyPoi {
    pub id: String,
    pub name: String,
    pub poi_type: String,
    pub tel: Option<String>,
    pub distance: String,
    pub direction: String,
    pub address: String,
    pub location: String,
    pub businessarea: Option<String>,
}

/// A road near looked-up coordinates.
#[derive(Debug, Clone)]
pub struct Road {
    pub id: String,
    pub name: String,
    pub distance: String,
    pub direction: String,
    pub location: String,
}

/// A crossing of two roads near looked-up coordinates.
#[derive(Debug, Clone)]
pub struct RoadIntersection {
    pub distance: String,
    pub direction: String,
    pub location: String,
    pub first_id: String,
    pub first_name: String,
    pub second_id: String,
    pub second_name: String,
}

/// An area of interest around looked-up coordinates.
#[derive(Debug, Clone)]
pub struct Aoi {
    pub id: String,
    pub name: String,
    pub adcode: String,
    pub location: String,
    pub area: String,
    pub distance: String,
    pub aoi_type: String,
}

/// The answer of the map service when a call fails.
#[derive(Debug, Clone)]
pub struct AmapError {
    pub status: String,
    pub info: String,
    pub infocode: String,
}

} // verus!
