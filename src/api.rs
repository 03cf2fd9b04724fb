use vstd::prelude::*;

use crate::bounds::{Coordinates, MICRODEGREES_PER_DEGREE};
use crate::error::ClientError;
use crate::geolocation::{checked_location, checked_location_spec};
use crate::text::{decimal_of, decimal_text, fixed_digits, fixed_digits_text};

verus! {

/// The server the client talks to unless another is configured.
pub const DEFAULT_BASE_URL: &'static str = "https://close-siusan-jaesea-21c201ce.koyeb.app";

/// Where the server's address comes from.
pub struct BaseUrl;

impl BaseUrl {
    /// The server's address: the configured one when there is one (the
    /// application passes what was set at build time), the default otherwise.
    pub fn get_base_url(configured: Option<&str>) -> (r: String)
        ensures
            r@ == (match configured {
                Some(s) => s@,
                None => DEFAULT_BASE_URL@,
            }),
    {
        match configured {
            Some(s) => String::from_str(s),
            None => String::from_str(DEFAULT_BASE_URL),
        }
    }
}

/// A coordinate in degrees with six decimals, as the server reads it.
pub open spec fn coordinate_text(v: int) -> Seq<char> {
    let a = if v < 0 { -v } else { v };
    let whole = a / MICRODEGREES_PER_DEGREE as int;
    let frac = a % MICRODEGREES_PER_DEGREE as int;
    (if v < 0 { "-"@ } else { Seq::<char>::empty() }) + decimal_of(whole as nat) + "."@
        + fixed_digits(frac as nat, 6)
}

/// Renders a coordinate held in millionths of a degree as degrees.
pub fn coordinate_decimal(v: i64) -> (r: String)
    ensures
        r@ == coordinate_text(v as int),
{
    let a: u64 = if v < 0 {
        (-(v + 1)) as u64 + 1
    } else {
        v as u64
    };
    let mut s = if v < 0 {
        String::from_str("-")
    } else {
        String::new()
    };
    let whole = decimal_text(a / 1_000_000);
    s.append(whole.as_str());
    s.append(".");
    let frac = fixed_digits_text(a % 1_000_000, 6);
    s.append(frac.as_str());
    s
}

pub open spec fn closest_stations_url_spec(base: Seq<char>, at: Coordinates) -> Seq<char> {
    base + "/api/v1/stations/closest?latitude="@ + coordinate_text(at.latitude as int)
        + "&longitude="@ + coordinate_text(at.longitude as int)
}

/// The query for the stations nearest to `at`.
pub fn closest_stations_url(base: &str, at: Coordinates) -> (r: String)
    ensures
        r@ == closest_stations_url_spec(base@, at),
{
    let mut s = String::from_str(base);
    s.append("/api/v1/stations/closest?latitude=");
    let lat = coordinate_decimal(at.latitude);
    s.append(lat.as_str());
    s.append("&longitude=");
    let lon = coordinate_decimal(at.longitude);
    s.append(lon.as_str());
    s
}

/// The signed-in station's own record.
pub fn dashboard_url(base: &str) -> (r: String)
    ensures
        r@ == base@ + "/api/v1/stations/dashboard"@,
{
    let mut s = String::from_str(base);
    s.append("/api/v1/stations/dashboard");
    s
}

/// The commodity with the given id, for updates.
pub fn commodity_url(base: &str, id: &str) -> (r: String)
    ensures
        r@ == base@ + "/api/v1/commodities/"@ + id@,
{
    let mut s = String::from_str(base);
    s.append("/api/v1/commodities/");
    s.append(id);
    s
}

pub fn sign_in_url(base: &str) -> (r: String)
    ensures
        r@ == base@ + "/api/v1/auth/signin"@,
{
    let mut s = String::from_str(base);
    s.append("/api/v1/auth/signin");
    s
}

pub fn sign_up_url(base: &str) -> (r: String)
    ensures
        r@ == base@ + "/api/v1/auth/signup"@,
{
    let mut s = String::from_str(base);
    s.append("/api/v1/auth/signup");
    s
}

/// The value of the `Authorization` header that carries `token`.
pub fn bearer_header(token: &str) -> (r: String)
    ensures
        r@ == "Bearer "@ + token@,
{
    let mut s = String::from_str("Bearer ");
    s.append(token);
    s
}

/// Reads the token out of a sign-in response: the decoded token, or the
/// decoder's complaint, reported as a failed sign-in response.
pub fn sign_in_token(decoded: Result<String, String>) -> (r: Result<String, ClientError>)
    ensures
        r == (match decoded {
            Ok(token) => Ok::<String, ClientError>(token),
            Err(detail) => Err(ClientError::SignInDecode { detail }),
        }),
{
    match decoded {
        Ok(token) => Ok(token),
        Err(detail) => Err(ClientError::SignInDecode { detail }),
    }
}

pub open spec fn is_success_status(status: u16) -> bool {
    200 <= status <= 299
}

pub open spec fn check_response_spec(sent: Result<u16, String>) -> Result<(), ClientError> {
    match sent {
        Err(detail) => Err(ClientError::Network { detail }),
        Ok(status) => if is_success_status(status) {
            Ok(())
        } else {
            Err(ClientError::Server { status })
        },
    }
}

/// Classifies what became of a request: no response at all, or a response
/// with the given status. Only a 2xx response may go on to be decoded.
pub fn check_response(sent: Result<u16, String>) -> (r: Result<(), ClientError>)
    ensures
        r == check_response_spec(sent),
{
    match sent {
        Err(detail) => Err(ClientError::Network { detail }),
        Ok(status) => if 200 <= status && status <= 299 {
            Ok(())
        } else {
            Err(ClientError::Server { status })
        },
    }
}

/// As [`check_response`], for a request that carries a credential: a 401
/// answer means that the credential was not accepted.
pub fn check_authorized_response(sent: Result<u16, String>) -> (r: Result<(), ClientError>)
    ensures
        r == (if sent == Ok::<u16, String>(401) {
            Err(ClientError::AuthenticationRequired)
        } else {
            check_response_spec(sent)
        }),
{
    match sent {
        Ok(401) => Err(ClientError::AuthenticationRequired),
        _ => check_response(sent),
    }
}

/// The search that a location outcome leads to: the query for the nearest
/// stations when a position inside the service area was obtained, and the
/// error to show, with no request made, otherwise.
pub fn nearest_stations_request(base: &str, located: Option<Coordinates>) -> (r: Result<
    String,
    ClientError,
>)
    ensures
        checked_location_spec(located) matches Err(e) ==> r == Err::<String, ClientError>(e),
        checked_location_spec(located) matches Ok(at) ==> (r matches Ok(url) && url@
            == closest_stations_url_spec(base@, at)),
{
    match checked_location(located) {
        Ok(at) => Ok(closest_stations_url(base, at)),
        Err(e) => Err(e),
    }
}

} // verus!
