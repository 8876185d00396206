//! A backend gateway for a public-health dashboard. It relays client
//! prediction requests to an upstream inference service and maps the
//! upstream's response or failure to a client-facing HTTP result, and
//! it produces the mock dashboard snapshot. Every function here is
//! verified; the surrounding HTTP server is ordinary code that hands
//! these functions plain values.

pub mod dashboard;
pub mod gateway;
pub mod json;
pub mod model;
