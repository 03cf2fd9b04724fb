use fuelfinder_client::api::{
    bearer_header, check_authorized_response, check_response, closest_stations_url,
    commodity_url, coordinate_decimal, dashboard_url, nearest_stations_request, sign_in_url,
    sign_in_token, sign_up_url, BaseUrl, DEFAULT_BASE_URL,
};
use fuelfinder_client::auth::{
    complete_sign_in, complete_sign_up, enter_dashboard, get_token, guard_protected,
    is_authenticated, AuthStore, DashboardEntry, FormOutcome, NavDecision, Route, TOKEN_KEY,
};
use fuelfinder_client::bounds::Coordinates;
use fuelfinder_client::error::ClientError;
use fuelfinder_client::text::{decimal_text, fixed_digits_text};

#[test]
fn base_url_default_and_configured() {
    assert_eq!(BaseUrl::get_base_url(None), "https://close-siusan-jaesea-21c201ce.koyeb.app");
    assert_eq!(BaseUrl::get_base_url(None), DEFAULT_BASE_URL);
    assert_eq!(BaseUrl::get_base_url(Some("http://localhost:8000")), "http://localhost:8000");
}

#[test]
fn decimal_rendering() {
    assert_eq!(decimal_text(0), "0");
    assert_eq!(decimal_text(404), "404");
    assert_eq!(decimal_text(18446744073709551615), "18446744073709551615");
    assert_eq!(fixed_digits_text(42, 6), "000042");
    assert_eq!(fixed_digits_text(1234567, 6), "234567");
    assert_eq!(coordinate_decimal(9_076_543), "9.076543");
    assert_eq!(coordinate_decimal(-1), "-0.000001");
    assert_eq!(coordinate_decimal(7_000_000), "7.000000");
    assert_eq!(coordinate_decimal(i64::MIN), "-9223372036854.775808");
}

#[test]
fn request_urls() {
    let base = "http://h";
    assert_eq!(
        closest_stations_url(base, Coordinates { latitude: 9_076_543, longitude: 7_398_600 }),
        "http://h/api/v1/stations/closest?latitude=9.076543&longitude=7.398600"
    );
    assert_eq!(dashboard_url(base), "http://h/api/v1/stations/dashboard");
    assert_eq!(commodity_url(base, "c9"), "http://h/api/v1/commodities/c9");
    assert_eq!(sign_in_url(base), "http://h/api/v1/auth/signin");
    assert_eq!(sign_up_url(base), "http://h/api/v1/auth/signup");
    assert_eq!(bearer_header("tok"), "Bearer tok");
}

#[test]
fn nearest_stations_request_cases() {
    assert_eq!(
        nearest_stations_request("http://h", None),
        Err(ClientError::GeolocationDeniedOrTimeout)
    );
    assert_eq!(
        nearest_stations_request(
            "http://h",
            Some(Coordinates { latitude: 10_000_000, longitude: 7_000_000 })
        ),
        Err(ClientError::OutOfServiceArea)
    );
    assert_eq!(
        nearest_stations_request(
            "http://h",
            Some(Coordinates { latitude: 9_000_000, longitude: 7_500_000 })
        ),
        Ok("http://h/api/v1/stations/closest?latitude=9.000000&longitude=7.500000".to_string())
    );
}

#[test]
fn response_classification() {
    assert_eq!(check_response(Ok(200)), Ok(()));
    assert_eq!(check_response(Ok(204)), Ok(()));
    assert_eq!(check_response(Ok(299)), Ok(()));
    assert_eq!(check_response(Ok(300)), Err(ClientError::Server { status: 300 }));
    assert_eq!(check_response(Ok(199)), Err(ClientError::Server { status: 199 }));
    assert_eq!(check_response(Ok(401)), Err(ClientError::Server { status: 401 }));
    assert_eq!(
        check_response(Err("refused".to_string())),
        Err(ClientError::Network { detail: "refused".to_string() })
    );
    assert_eq!(check_authorized_response(Ok(401)), Err(ClientError::AuthenticationRequired));
    assert_eq!(check_authorized_response(Ok(500)), Err(ClientError::Server { status: 500 }));
    assert_eq!(check_authorized_response(Ok(200)), Ok(()));
}

#[test]
fn error_messages() {
    assert_eq!(ClientError::Server { status: 404 }.message(), "Server error: 404");
    assert_eq!(
        ClientError::Network { detail: "down".to_string() }.message(),
        "Network error: down"
    );
    assert_eq!(ClientError::Decode { detail: "bad".to_string() }.message(), "Parsing error: bad");
    assert_eq!(
        ClientError::OutOfServiceArea.message(),
        "Oops! seems like you are outside the Abuja service area."
    );
    assert_eq!(
        ClientError::GeolocationDeniedOrTimeout.message(),
        "GPS took too long or permission was denied."
    );
    assert_eq!(
        ClientError::Validation { field: "f".to_string(), message: "m".to_string() }.message(),
        "m"
    );
    assert_eq!(ClientError::AuthenticationRequired.message(), "Please sign in to continue.");
    assert_eq!(
        ClientError::RegistrationLocationMissing.message(),
        "Could determine GPS location."
    );
    assert_eq!(
        ClientError::SignInDecode { detail: "missing field".to_string() }.message(),
        "Error while parsing, missing field"
    );
    assert!(ClientError::AuthenticationRequired.requires_sign_in());
    assert!(!ClientError::Server { status: 401 }.requires_sign_in());
}

#[test]
fn token_presence() {
    assert_eq!(TOKEN_KEY, "accessToken");
    assert!(!is_authenticated(&None));
    assert!(!is_authenticated(&Some(String::new())));
    assert!(is_authenticated(&Some("t".to_string())));
    assert_eq!(get_token(None), "");
    assert_eq!(get_token(Some("abc".to_string())), "abc");
}

#[test]
fn auth_store_get_set_clear() {
    let mut s = AuthStore::from_stored(None);
    assert_eq!(s.get(), "");
    assert!(!s.is_authenticated());
    s.set("tok".to_string());
    assert_eq!(s.get(), "tok");
    assert_eq!(s.stored(), &Some("tok".to_string()));
    assert!(s.is_authenticated());
    s.clear();
    assert_eq!(s.stored(), &None);
}

#[test]
fn route_paths() {
    assert_eq!(Route::Home.path(), "/");
    assert_eq!(Route::Signup.path(), "/signup");
    assert_eq!(Route::Signin.path(), "/signin");
    assert_eq!(Route::Dashboard.path(), "/station");
}

#[test]
fn dashboard_without_token_redirects_without_fetch() {
    let none = AuthStore::from_stored(None);
    assert_eq!(guard_protected(&none), NavDecision::RedirectTo(Route::Signin));
    assert_eq!(enter_dashboard(&none, "http://h"), DashboardEntry::Redirect(Route::Signin));
    let empty = AuthStore::from_stored(Some(String::new()));
    assert_eq!(enter_dashboard(&empty, "http://h"), DashboardEntry::Redirect(Route::Signin));
}

#[test]
fn dashboard_with_token_fetches() {
    let s = AuthStore::from_stored(Some("tok".to_string()));
    assert_eq!(guard_protected(&s), NavDecision::Allow);
    assert_eq!(
        enter_dashboard(&s, "http://h"),
        DashboardEntry::Fetch {
            url: "http://h/api/v1/stations/dashboard".to_string(),
            authorization: "Bearer tok".to_string(),
        }
    );
}

#[test]
fn sign_in_with_valid_credentials_stores_token() {
    let mut s = AuthStore::from_stored(None);
    let out = complete_sign_in(&mut s, Ok("jwt-value".to_string()));
    assert_eq!(out, FormOutcome::Navigate(Route::Dashboard));
    assert_eq!(s.get(), "jwt-value");
    assert!(s.is_authenticated());
    assert_eq!(guard_protected(&s), NavDecision::Allow);
}

#[test]
fn sign_in_refused_leaves_no_token() {
    let mut s = AuthStore::from_stored(None);
    let out = complete_sign_in(&mut s, Err(ClientError::Server { status: 401 }));
    assert_eq!(out, FormOutcome::ShowError(ClientError::Server { status: 401 }));
    assert!(!s.is_authenticated());
    assert_eq!(s.stored(), &None);
    if let FormOutcome::ShowError(e) = out {
        assert_eq!(e.message(), "Server error: 401");
    }
}

#[test]
fn sign_in_with_empty_token_is_an_error() {
    let mut s = AuthStore::from_stored(None);
    let out = complete_sign_in(&mut s, Ok(String::new()));
    assert_eq!(
        out,
        FormOutcome::ShowError(ClientError::Decode {
            detail: "the server sent an empty access token".to_string()
        })
    );
    assert!(!s.is_authenticated());
}

#[test]
fn sign_up_outcomes() {
    assert_eq!(complete_sign_up(Ok(())), FormOutcome::Navigate(Route::Signin));
    assert_eq!(
        complete_sign_up(Err(ClientError::OutOfServiceArea)),
        FormOutcome::ShowError(ClientError::OutOfServiceArea)
    );
}

#[test]
fn sign_in_body_decoding() {
    assert_eq!(sign_in_token(Ok("tok".to_string())), Ok("tok".to_string()));
    let failed = sign_in_token(Err("expected value".to_string()));
    assert_eq!(failed, Err(ClientError::SignInDecode { detail: "expected value".to_string() }));
    assert_eq!(failed.unwrap_err().message(), "Error while parsing, expected value");
}
