//! Client-side coordination for finding fuel stations and managing a
//! station's commodities: the geofence, the single-shot location request,
//! dispatchable actions and cached reads with stale-result protection, the
//! sign-in guard, form validation, and the requests the pages make.
//!
//! Everything here is plain state and decisions; the browser, the network
//! and the rendering are driven by the application around it.

pub mod action;
pub mod api;
pub mod auth;
pub mod bounds;
pub mod commodity;
pub mod error;
pub mod forms;
pub mod geolocation;
pub mod resource;
pub mod station;
pub mod text;
