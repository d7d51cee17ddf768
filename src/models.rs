//! The records that the client exchanges with Kaggle and with its callers.

use vstd::prelude::*;

verus! {

/// A file-system path, held by the client's settings.
#[verifier::external_type_specification]
#[verifier::external_body]
pub struct ExPathBuf(std::path::PathBuf);

/// A Kaggle username and API key.
#[derive(Debug, Clone)]
pub struct KaggleCredentials {
    /// Kaggle username
    pub username: String,
    /// Kaggle API key
    pub key: String,
}

impl View for KaggleCredentials {
    type V = (Seq<char>, Seq<char>);

    open spec fn view(&self) -> (Seq<char>, Seq<char>) {
        (self.username@, self.key@)
    }
}

/// The parameters of an authentication through the tool interface.
#[derive(Debug, Clone)]
pub struct AuthenticationRequest {
    /// Kaggle username
    pub kaggle_username: String,
    /// Kaggle API key
    pub kaggle_key: String,
}

/// The answer to an authentication attempt.
#[derive(Debug, Clone)]
pub struct AuthenticationResponse {
    /// Whether the attempt succeeded
    pub success: bool,
    /// A message for a person
    pub message: String,
    /// The authenticated username, on success
    pub username: Option<String>,
}

/// An instant in UTC: whole seconds since the Unix epoch and the
/// nanoseconds past them.
#[derive(Debug, Clone, Copy, PartialEq, Eq)]
pub struct Timestamp {
    pub seconds: i64,
    pub nanos: u32,
}

/// One row of Kaggle's competition listing.
#[derive(Debug, Clone)]
pub struct Competition {
    /// Competition reference or slug, such as `titanic`
    pub ref_: String,
    /// Competition title
    pub title: String,
    /// Full URL of the competition page
    pub url: String,
    /// Competition category
    pub category: String,
    /// Deadline, if the competition has one
    pub deadline: Option<Timestamp>,
    /// Prize or reward, if any
    pub reward: Option<String>,
    /// Number of participating teams
    pub team_count: i32,
    /// Whether the current user has entered the competition
    pub user_has_entered: bool,
    /// Description, if any
    pub description: Option<String>,
}

/// Optional parameters for listing competitions.
#[derive(Debug, Clone)]
pub struct CompetitionListRequest {
    /// Search terms
    pub search: Option<String>,
    /// Category filter, such as `featured`, `research` or `playground`
    pub category: Option<String>,
    /// Group filter, such as `general`, `entered` or `inClass`
    pub group: Option<String>,
    /// Sort order, such as `prize`, `deadline` or `teamCount`
    pub sort_by: Option<String>,
    /// Page number
    pub page: Option<i32>,
}

/// Settings of the client: a passive bag with nothing derived from it.
#[derive(Debug)]
pub struct KaggleConfig {
    /// Default competition for operations
    pub competition: Option<String>,
    /// Default download path for files
    pub path: Option<std::path::PathBuf>,
    /// HTTP proxy URL for API requests
    pub proxy: Option<String>,
}

impl Default for KaggleConfig {
    fn default() -> (r: KaggleConfig)
        ensures
            r.competition is None,
            r.path is None,
            r.proxy is None,
    {
        KaggleConfig { competition: None, path: None, proxy: None }
    }
}

/// A Kaggle dataset.
#[derive(Debug, Clone)]
pub struct Dataset {
    /// Dataset identifier
    pub id: String,
    /// Dataset title
    pub title: String,
    /// Subtitle or description
    pub subtitle: Option<String>,
    /// Name of the creator
    pub creator_name: String,
    /// Total size in bytes
    pub total_bytes: i64,
    /// Full URL of the dataset page
    pub url: String,
}

/// A Kaggle kernel (notebook).
#[derive(Debug, Clone)]
pub struct Kernel {
    /// Kernel reference or slug
    pub ref_: String,
    /// Kernel title
    pub title: String,
    /// Author's username
    pub author: String,
    /// Programming language, such as `python` or `r`
    pub language: String,
    /// Kind of kernel, such as `script` or `notebook`
    pub kernel_type: String,
}

/// A Kaggle model.
#[derive(Debug, Clone)]
pub struct Model {
    /// Model identifier
    pub id: String,
    /// Model title
    pub title: String,
    /// Subtitle or description
    pub subtitle: Option<String>,
    /// Author's username
    pub author: String,
}

} // verus!
