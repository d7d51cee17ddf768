//! The closed set of errors that the client reports, and their text.

use reqwest::Error as TransportError;
use serde_json::Error as JsonSyntaxError;
use vstd::prelude::*;
use vstd::string::to_string_from_display_ensures;

verus! {

/// An I/O failure met while reading or writing the credential file.
#[verifier::external_type_specification]
#[verifier::external_body]
pub struct ExIoError(std::io::Error);

/// A transport-level failure of the HTTP client (DNS, connection, timeout).
#[verifier::external_type_specification]
#[verifier::external_body]
pub struct ExTransportError(TransportError);

/// A JSON document that could not be read or written.
#[verifier::external_type_specification]
#[verifier::external_body]
pub struct ExJsonSyntaxError(JsonSyntaxError);

/// An error response of the Kaggle API: the HTTP status and the body text.
#[derive(Debug, Clone)]
pub struct KaggleError {
    /// The status as HTTP writes it, such as `404 Not Found`.
    pub code: String,
    /// The response body, verbatim.
    pub message: String,
}

impl KaggleError {
    /// The text of this error: the code, a colon and a space, the message.
    pub fn to_string(&self) -> (r: String)
        ensures
            r@ == self.code@ + ": "@ + self.message@,
    {
        proof {
            reveal_strlit(": ");
        }
        self.code.clone().concat(": ").concat(self.message.as_str())
    }
}

/// Every failure of the client.
#[derive(Debug)]
pub enum Error {
    /// The remote service rejected the credential probe.
    AuthenticationError(String),
    /// Any other non-2xx response of the remote service.
    ApiError(KaggleError),
    /// A network-level failure.
    HttpError(TransportError),
    /// A malformed payload while encoding or decoding.
    JsonError(JsonSyntaxError),
    /// A file-system failure while persisting or loading credentials.
    IoError(std::io::Error),
    /// A local input that is not valid.
    InvalidParameter(String),
    /// The operation needs stored credentials and there are none.
    NotAuthenticated,
    /// Anything else, such as a malformed credential file.
    Other(String),
}

/// Whether `s` is the text of the error `e`: a prefix that names the kind,
/// then the detail. The detail of an outside error is that error's own text,
/// as its `Display` writes it.
pub open spec fn is_error_text(e: Error, s: Seq<char>) -> bool {
    match e {
        Error::AuthenticationError(m) => s == "Authentication failed: "@ + m@,
        Error::ApiError(k) => s == "API error: "@ + k.code@ + ": "@ + k.message@,
        Error::HttpError(x) => exists|t: String|
            #[trigger] to_string_from_display_ensures::<TransportError>(&x, t) && s == "HTTP error: "@
                + t@,
        Error::JsonError(x) => exists|t: String|
            #[trigger] to_string_from_display_ensures::<JsonSyntaxError>(&x, t) && s == "JSON error: "@
                + t@,
        Error::IoError(x) => exists|t: String|
            #[trigger] to_string_from_display_ensures::<std::io::Error>(&x, t) && s == "IO error: "@
                + t@,
        Error::InvalidParameter(m) => s == "Invalid parameter: "@ + m@,
        Error::NotAuthenticated => s == "Not authenticated"@,
        Error::Other(m) => s == m@,
    }
}

impl Error {
    /// The text of this error: a prefix that names its kind, then its detail.
    pub fn to_string(&self) -> (r: String)
        ensures
            is_error_text(*self, r@),
    {
        match self {
            Error::AuthenticationError(s) => String::from_str("Authentication failed: ").concat(
                s.as_str(),
            ),
            Error::ApiError(k) => {
                let detail = k.to_string();
                let r = String::from_str("API error: ").concat(detail.as_str());
                proof {
                    assert(r@ =~= "API error: "@ + k.code@ + ": "@ + k.message@);
                }
                r
            },
            Error::HttpError(e) => {
                let detail = e.to_string();
                let r = String::from_str("HTTP error: ").concat(detail.as_str());
                proof {
                    assert(to_string_from_display_ensures::<TransportError>(e, detail));
                }
                r
            },
            Error::JsonError(e) => {
                let detail = e.to_string();
                let r = String::from_str("JSON error: ").concat(detail.as_str());
                proof {
                    assert(to_string_from_display_ensures::<JsonSyntaxError>(e, detail));
                }
                r
            },
            Error::IoError(e) => {
                let detail = e.to_string();
                let r = String::from_str("IO error: ").concat(detail.as_str());
                proof {
                    assert(to_string_from_display_ensures::<std::io::Error>(e, detail));
                }
                r
            },
            Error::InvalidParameter(s) => String::from_str("Invalid parameter: ").concat(
                s.as_str(),
            ),
            Error::NotAuthenticated => String::from_str("Not authenticated"),
            Error::Other(s) => s.clone(),
        }
    }
}

impl From<KaggleError> for Error {
    fn from(e: KaggleError) -> (r: Error) {
        Error::ApiError(e)
    }
}

impl vstd::std_specs::convert::FromSpecImpl<KaggleError> for Error {
    open spec fn obeys_from_spec() -> bool {
        true
    }

    open spec fn from_spec(e: KaggleError) -> Error {
        Error::ApiError(e)
    }
}

impl From<TransportError> for Error {
    fn from(e: TransportError) -> (r: Error) {
        Error::HttpError(e)
    }
}

impl vstd::std_specs::convert::FromSpecImpl<TransportError> for Error {
    open spec fn obeys_from_spec() -> bool {
        true
    }

    open spec fn from_spec(e: TransportError) -> Error {
        Error::HttpError(e)
    }
}

impl From<JsonSyntaxError> for Error {
    fn from(e: JsonSyntaxError) -> (r: Error) {
        Error::JsonError(e)
    }
}

impl vstd::std_specs::convert::FromSpecImpl<JsonSyntaxError> for Error {
    open spec fn obeys_from_spec() -> bool {
        true
    }

    open spec fn from_spec(e: JsonSyntaxError) -> Error {
        Error::JsonError(e)
    }
}

impl From<std::io::Error> for Error {
    fn from(e: std::io::Error) -> (r: Error) {
        Error::IoError(e)
    }
}

impl vstd::std_specs::convert::FromSpecImpl<std::io::Error> for Error {
    open spec fn obeys_from_spec() -> bool {
        true
    }

    open spec fn from_spec(e: std::io::Error) -> Error {
        Error::IoError(e)
    }
}

} // verus!
