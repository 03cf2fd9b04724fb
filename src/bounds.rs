use vstd::prelude::*;

use crate::error::ClientError;

verus! {

/// Coordinates are held in millionths of a degree.
pub const MICRODEGREES_PER_DEGREE: i64 = 1_000_000;

/// Southern edge of the service area (8.25 degrees).
pub const MIN_LATITUDE: i64 = 8_250_000;

/// Northern edge of the service area (9.30 degrees).
pub const MAX_LATITUDE: i64 = 9_300_000;

/// Western edge of the service area (6.75 degrees).
pub const MIN_LONGITUDE: i64 = 6_750_000;

/// Eastern edge of the service area (7.75 degrees).
pub const MAX_LONGITUDE: i64 = 7_750_000;

/// A position on the earth, both axes in millionths of a degree.
#[derive(Clone, Copy, Debug, PartialEq, Eq, Structural)]
pub struct Coordinates {
    pub latitude: i64,
    pub longitude: i64,
}

/// The service area: an axis-aligned box, closed on every side.
pub open spec fn in_service_area(latitude: int, longitude: int) -> bool {
    &&& MIN_LATITUDE <= latitude <= MAX_LATITUDE
    &&& MIN_LONGITUDE <= longitude <= MAX_LONGITUDE
}

/// Accepts a position inside the service area and rejects any other.
pub fn validate_abuja_bounds(latitude: i64, longitude: i64) -> (r: Result<(), ClientError>)
    ensures
        r == (if in_service_area(latitude as int, longitude as int) {
            Ok::<(), ClientError>(())
        } else {
            Err(ClientError::OutOfServiceArea)
        }),
{
    if MIN_LATITUDE <= latitude && latitude <= MAX_LATITUDE && MIN_LONGITUDE <= longitude
        && longitude <= MAX_LONGITUDE {
        Ok(())
    } else {
        Err(ClientError::OutOfServiceArea)
    }
}

} // verus!
