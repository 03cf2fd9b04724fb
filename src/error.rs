use vstd::prelude::*;

use crate::text::{decimal_of, decimal_text};

verus! {

/// Every way a user-facing operation of the client can fail.
///
/// The variants keep apart what the interface later collapses into one
/// message: see [`ClientError::message`].
#[derive(Clone, Debug, PartialEq, Eq)]
pub enum ClientError {
    /// The location provider reported a denial, an error or its own timeout,
    /// or no position arrived before the deadline.
    GeolocationDeniedOrTimeout,
    /// A registration could not obtain the position of the station.
    RegistrationLocationMissing,
    /// The position lies outside the service area.
    OutOfServiceArea,
    /// A form field failed local validation.
    Validation { field: String, message: String },
    /// The request never produced a response.
    Network { detail: String },
    /// A response arrived with a status outside 200..=299.
    Server { status: u16 },
    /// A successful response whose body could not be decoded.
    Decode { detail: String },
    /// A successful sign-in response whose body could not be decoded.
    SignInDecode { detail: String },
    /// A protected operation was attempted without a usable credential.
    AuthenticationRequired,
}

pub open spec fn out_of_area_text() -> Seq<char> {
    "Oops! seems like you are outside the Abuja service area."@
}

pub open spec fn location_failed_text() -> Seq<char> {
    "GPS took too long or permission was denied."@
}

pub open spec fn registration_location_text() -> Seq<char> {
    "Could determine GPS location."@
}

pub open spec fn sign_in_required_text() -> Seq<char> {
    "Please sign in to continue."@
}

impl ClientError {
    /// The single line of text shown to the user for this error.
    pub open spec fn message_spec(&self) -> Seq<char> {
        match self {
            ClientError::GeolocationDeniedOrTimeout => location_failed_text(),
            ClientError::RegistrationLocationMissing => registration_location_text(),
            ClientError::OutOfServiceArea => out_of_area_text(),
            ClientError::Validation { message, .. } => message@,
            ClientError::Network { detail } => "Network error: "@ + detail@,
            ClientError::Server { status } => "Server error: "@ + decimal_of(*status as nat),
            ClientError::Decode { detail } => "Parsing error: "@ + detail@,
            ClientError::SignInDecode { detail } => "Error while parsing, "@ + detail@,
            ClientError::AuthenticationRequired => sign_in_required_text(),
        }
    }

    pub fn message(&self) -> (r: String)
        ensures
            r@ == self.message_spec(),
    {
        match self {
            ClientError::GeolocationDeniedOrTimeout => String::from_str(
                "GPS took too long or permission was denied.",
            ),
            ClientError::RegistrationLocationMissing => String::from_str(
                "Could determine GPS location.",
            ),
            ClientError::OutOfServiceArea => String::from_str(
                "Oops! seems like you are outside the Abuja service area.",
            ),
            ClientError::Validation { message, .. } => message.clone(),
            ClientError::Network { detail } => {
                let mut s = String::from_str("Network error: ");
                s.append(detail.as_str());
                s
            },
            ClientError::Server { status } => {
                let mut s = String::from_str("Server error: ");
                let digits = decimal_text(*status as u64);
                s.append(digits.as_str());
                s
            },
            ClientError::Decode { detail } => {
                let mut s = String::from_str("Parsing error: ");
                s.append(detail.as_str());
                s
            },
            ClientError::SignInDecode { detail } => {
                let mut s = String::from_str("Error while parsing, ");
                s.append(detail.as_str());
                s
            },
            ClientError::AuthenticationRequired => String::from_str("Please sign in to continue."),
        }
    }

    /// Whether the interface answers this error by sending the user to sign in
    /// rather than by showing a message.
    pub fn requires_sign_in(&self) -> (r: bool)
        ensures
            r == (*self is AuthenticationRequired),
    {
        match self {
            ClientError::AuthenticationRequired => true,
            _ => false,
        }
    }
}

} // verus!
