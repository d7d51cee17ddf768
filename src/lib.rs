//! A client for Kaggle's public REST API, with the decisions it makes proved.
//!
//! The library holds the client's state machine (unauthenticated, then
//! authenticated), the resolution of credentials from the environment and the
//! credential file, the credential document it persists, the requests it
//! builds and the mapping of HTTP outcomes to a closed error type. Sending
//! requests and touching the file system is left to the caller, which hands
//! the outcomes back as plain values.

pub mod client;
pub mod credentials;
pub mod error;
pub mod models;
pub mod server;
pub mod status;
pub mod text;

pub use error::{Error, KaggleError};
pub use models::{
    AuthenticationRequest, AuthenticationResponse, Competition, CompetitionListRequest, Dataset,
    KaggleConfig, KaggleCredentials, Kernel, Model, Timestamp,
};
pub use text::{decimal, signed_decimal};
pub use client::{api_error, ApiRequest, AuthorizedRequest, KaggleClient};
pub use credentials::{
    credentials_document, credentials_from_env, credentials_from_file, parse_credentials_document,
    CredentialFile,
};
pub use server::{AuthenticateInput, AuthenticateParams, CompetitionsListParams};
pub use status::{is_success, status_text};
