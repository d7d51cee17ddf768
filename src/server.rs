//! The decisions of the tool layer: the parameters of the two tools, their
//! defaults, and the answers and failures that they report.

use crate::client::{AuthorizedRequest, KaggleClient};
use crate::error::{is_error_text, Error};
use crate::models::AuthenticationResponse;
use crate::text::signed_decimal_of;
use vstd::prelude::*;

verus! {

/// Parameters of the `authenticate` tool.
#[derive(Debug, Clone)]
pub struct AuthenticateParams {
    /// Kaggle username
    pub kaggle_username: String,
    /// Kaggle API key
    pub kaggle_key: String,
}

/// Input of an authentication tool handler.
#[derive(Debug, Clone)]
pub struct AuthenticateInput {
    /// Kaggle username
    pub kaggle_username: String,
    /// Kaggle API key
    pub kaggle_key: String,
}

/// Parameters of the `competitions_list` tool.
#[derive(Debug, Clone)]
pub struct CompetitionsListParams {
    /// Term(s) to search for
    pub search: String,
    /// Category filter (all, featured, research, recruitment, gettingStarted, masters, playground)
    pub category: String,
    /// Group filter (general, entered, inClass)
    pub group: String,
    /// Sort order (grouped, prize, earliestDeadline, latestDeadline, numberOfTeams, recentlyCreated)
    pub sort_by: String,
    /// Page number
    pub page: i32,
}

/// The category when none is given: all of them.
pub fn default_category() -> (r: String)
    ensures
        r@ == "all"@,
{
    String::from_str("all")
}

/// The group when none is given.
pub fn default_group() -> (r: String)
    ensures
        r@ == "general"@,
{
    String::from_str("general")
}

/// The sort order when none is given.
pub fn default_sort_by() -> (r: String)
    ensures
        r@ == "latestDeadline"@,
{
    String::from_str("latestDeadline")
}

/// The page when none is given.
pub fn default_page() -> (r: i32)
    ensures
        r == 1,
{
    1
}

impl Default for CompetitionsListParams {
    /// No search term, and the default of every filter.
    fn default() -> (r: CompetitionsListParams)
        ensures
            r.search@ == Seq::<char>::empty(),
            r.category@ == "all"@,
            r.group@ == "general"@,
            r.sort_by@ == "latestDeadline"@,
            r.page == 1,
    {
        CompetitionsListParams {
            search: String::new(),
            category: default_category(),
            group: default_group(),
            sort_by: default_sort_by(),
            page: default_page(),
        }
    }
}

/// The answer of the `authenticate` tool to a successful authentication.
pub fn authentication_success(username: String) -> (r: AuthenticationResponse)
    ensures
        r.success,
        r.message@ == "Successfully authenticated with Kaggle API"@,
        r.username matches Some(u) && u@ == username@,
{
    AuthenticationResponse {
        success: true,
        message: String::from_str("Successfully authenticated with Kaggle API"),
        username: Some(username),
    }
}

/// The message of the `competitions_list` tool to an unauthenticated caller.
pub open spec fn not_authenticated_hint() -> Seq<char> {
    "Not authenticated. Please use the authenticate tool first."@
}

/// The request of the `competitions_list` tool, or, when the client holds no
/// credentials, the message that asks the caller to authenticate first.
pub fn competitions_list_request(client: &KaggleClient, params: CompetitionsListParams) -> (r: Result<
    AuthorizedRequest,
    String,
>)
    ensures
        match client@.credentials {
            Some((u, k)) => r matches Ok(a) && a.username@ == u && a.key@ == k
                && a.request.url@ == client@.api_base + "/competitions/list"@
                && crate::client::query_view(a.request.query@) == seq![
                ("search"@, params.search@),
                ("category"@, params.category@),
                ("group"@, params.group@),
                ("sortBy"@, params.sort_by@),
                ("page"@, signed_decimal_of(params.page as int)),
            ],
            None => r matches Err(m) && m@ == not_authenticated_hint(),
        },
{
    if !client.is_authenticated() {
        return Err(String::from_str("Not authenticated. Please use the authenticate tool first."));
    }
    match client.list_competitions_request(
        params.search,
        params.category,
        params.group,
        params.sort_by,
        params.page,
    ) {
        Ok(a) => Ok(a),
        Err(e) => Err(e.to_string()),
    }
}

/// What precedes the error's own text in a failure of the listing tool.
pub open spec fn listing_failure_prefix() -> Seq<char> {
    "Error listing competitions: "@
}

/// The message of the `competitions_list` tool when listing failed: a fixed
/// prefix, then the error's text.
pub fn competitions_list_failure(e: &Error) -> (r: String)
    ensures
        exists|t: Seq<char>| r@ == listing_failure_prefix() + t && #[trigger] is_error_text(*e, t),
{
    let text = e.to_string();
    let r = String::from_str("Error listing competitions: ").concat(text.as_str());
    proof {
        assert(is_error_text(*e, text@));
    }
    r
}

} // verus!
