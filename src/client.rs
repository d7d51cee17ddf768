//! The Kaggle API client as a state machine.
//!
//! The client starts unauthenticated and becomes authenticated by a
//! successful credential probe or by loading stored credentials. It decides
//! what to send and what an answer means; the caller sends the requests it
//! builds and hands back what came of them.

use crate::credentials::{
    credentials_document, credentials_from_env, credentials_from_file, document_of, env_pair,
    file_outcome, CredentialFile,
};
use crate::error::{Error, KaggleError};
use crate::models::{KaggleConfig, KaggleCredentials};
use crate::status::{
    is_success, is_success_code, lemma_status_text_starts_with_code, status_text, status_text_of,
};
use crate::text::{decimal_of, signed_decimal, signed_decimal_of};
use reqwest::Error as TransportError;
use vstd::prelude::*;

verus! {

/// The Kaggle API's base URL.
pub open spec fn default_api_base() -> Seq<char> {
    "https://www.kaggle.com/api/v1"@
}

/// The path, under the base URL, of the competition listing.
pub open spec fn competitions_list_path() -> Seq<char> {
    "/competitions/list"@
}

/// A request to the API, before credentials are attached.
#[derive(Debug, Clone)]
pub struct ApiRequest {
    /// The full URL, without the query.
    pub url: String,
    /// The query parameters, in order, unencoded.
    pub query: Vec<(String, String)>,
}

/// A request with the credentials that go with it as HTTP Basic auth.
#[derive(Debug, Clone)]
pub struct AuthorizedRequest {
    /// What to send.
    pub request: ApiRequest,
    /// The username to send as the Basic auth user.
    pub username: String,
    /// The API key to send as the Basic auth password.
    pub key: String,
}

/// The query parameters as text.
pub open spec fn query_view(q: Seq<(String, String)>) -> Seq<(Seq<char>, Seq<char>)> {
    q.map_values(|p: (String, String)| (p.0@, p.1@))
}

/// What the client holds: the stored pair, the base URL of the API, and
/// whether a validated pair is persisted.
pub struct ClientState {
    pub credentials: Option<(Seq<char>, Seq<char>)>,
    pub api_base: Seq<char>,
    pub persists: bool,
}

/// The Kaggle API client.
#[derive(Debug)]
pub struct KaggleClient {
    credentials: Option<KaggleCredentials>,
    #[allow(dead_code)]
    config: KaggleConfig,
    api_base: String,
    persist_credentials: bool,
}

impl View for KaggleClient {
    type V = ClientState;

    closed spec fn view(&self) -> ClientState {
        ClientState {
            credentials: match self.credentials {
                Some(c) => Some(c@),
                None => None,
            },
            api_base: self.api_base@,
            persists: self.persist_credentials,
        }
    }
}

/// The message of a rejected credential probe.
pub open spec fn rejection_message(code: u16) -> Seq<char> {
    "Invalid credentials: "@ + status_text_of(code)
}

/// A rejected credential probe reports the numeric status: its message
/// holds the status code's decimal digits.
pub proof fn lemma_rejection_names_status(code: u16)
    ensures
        exists|i: int|
            0 <= i && i + decimal_of(code as nat).len() <= rejection_message(code).len()
                && #[trigger] rejection_message(code).subrange(i, i + decimal_of(code as nat).len())
                == decimal_of(code as nat),
{
    let i = "Invalid credentials: "@.len() as int;
    let n = decimal_of(code as nat).len();
    lemma_status_text_starts_with_code(code);
    assert(rejection_message(code).subrange(i, i + n) =~= status_text_of(code).take(n as int));
}

impl KaggleClient {
    /// An unauthenticated client for the Kaggle API, which persists the
    /// credentials it validates.
    pub fn new() -> (r: KaggleClient)
        ensures
            r@ == (ClientState { credentials: None, api_base: default_api_base(), persists: true }),
    {
        KaggleClient {
            credentials: None,
            config: KaggleConfig::default(),
            api_base: String::from_str(Self::api_base()),
            persist_credentials: true,
        }
    }

    /// The Kaggle API's base URL.
    pub fn api_base() -> (r: &'static str)
        ensures
            r@ == default_api_base(),
    {
        "https://www.kaggle.com/api/v1"
    }

    /// The same client, speaking to the API at `base` instead.
    pub fn with_api_base(self, base: String) -> (r: KaggleClient)
        ensures
            r@ == (ClientState { api_base: base@, ..self@ }),
    {
        KaggleClient { api_base: base, ..self }
    }

    /// The same client, which does not persist the credentials it validates.
    pub fn skip_save_credentials(self) -> (r: KaggleClient)
        ensures
            r@ == (ClientState { persists: false, ..self@ }),
    {
        KaggleClient { persist_credentials: false, ..self }
    }

    /// Whether credentials are stored. They are not checked again.
    pub fn is_authenticated(&self) -> (r: bool)
        ensures
            r == self@.credentials is Some,
    {
        self.credentials.is_some()
    }

    /// The URL of the competition listing.
    fn competitions_list_url(&self) -> (r: String)
        ensures
            r@ == self@.api_base + competitions_list_path(),
    {
        self.api_base.clone().concat("/competitions/list")
    }

    /// The credential probe for a pair: the competition listing, without
    /// query, with the pair attached.
    pub fn auth_probe(&self, username: &str, key: &str) -> (r: AuthorizedRequest)
        ensures
            r.request.url@ == self@.api_base + competitions_list_path(),
            r.request.query@.len() == 0,
            r.username@ == username@,
            r.key@ == key@,
    {
        AuthorizedRequest {
            request: ApiRequest { url: self.competitions_list_url(), query: Vec::new() },
            username: String::from_str(username),
            key: String::from_str(key),
        }
    }

    /// Takes the outcome of the credential probe for `username` and `key`:
    /// the status of its response, or the transport failure.
    ///
    /// On a 2xx status the pair is stored and the result is `Ok`: with the
    /// credential document of the pair to persist where the client persists
    /// credentials, and with nothing otherwise. Any other
    /// status is an authentication error that names the status, and a
    /// transport failure is an HTTP error; both leave the client unchanged.
    pub fn authenticate(
        &mut self,
        username: String,
        key: String,
        probe: Result<u16, TransportError>,
    ) -> (r: Result<Option<String>, Error>)
        ensures
            match probe {
                Ok(code) => if is_success_code(code) {
                    &&& final(self)@ == (ClientState {
                        credentials: Some((username@, key@)),
                        ..old(self)@
                    })
                    &&& if old(self)@.persists {
                        r matches Ok(Some(d)) && d@ == document_of(username@, key@)
                    } else {
                        r matches Ok(None)
                    }
                } else {
                    &&& final(self)@ == old(self)@
                    &&& r matches Err(Error::AuthenticationError(m)) && m@ == rejection_message(code)
                },
                Err(e) => final(self)@ == old(self)@ && r == Err::<Option<String>, Error>(
                    Error::HttpError(e),
                ),
            },
    {
        let code = match probe {
            Ok(code) => code,
            Err(e) => {
                return Err(Error::HttpError(e));
            },
        };
        if is_success(code) {
            let document = if self.persist_credentials {
                Some(credentials_document(username.as_str(), key.as_str()))
            } else {
                None
            };
            self.credentials = Some(KaggleCredentials { username, key });
            Ok(document)
        } else {
            let status = status_text(code);
            Err(
                Error::AuthenticationError(
                    String::from_str("Invalid credentials: ").concat(status.as_str()),
                ),
            )
        }
    }

    /// Attaches the stored credentials to `request`. Without credentials it
    /// fails with `NotAuthenticated`, and there is nothing to send.
    pub fn request(&self, request: ApiRequest) -> (r: Result<AuthorizedRequest, Error>)
        ensures
            match self@.credentials {
                Some((u, k)) => r matches Ok(a) && a.request == request && a.username@ == u
                    && a.key@ == k,
                None => r == Err::<AuthorizedRequest, Error>(Error::NotAuthenticated),
            },
    {
        match &self.credentials {
            Some(c) => Ok(
                AuthorizedRequest { request, username: c.username.clone(), key: c.key.clone() },
            ),
            None => Err(Error::NotAuthenticated),
        }
    }

    /// The competition listing with these filters, passed through as they
    /// are, with the stored credentials attached.
    pub fn list_competitions_request(
        &self,
        search: String,
        category: String,
        group: String,
        sort_by: String,
        page: i32,
    ) -> (r: Result<AuthorizedRequest, Error>)
        ensures
            match self@.credentials {
                Some((u, k)) => r matches Ok(a) && a.username@ == u && a.key@ == k
                    && a.request.url@ == self@.api_base + competitions_list_path()
                    && query_view(a.request.query@) == seq![
                    ("search"@, search@),
                    ("category"@, category@),
                    ("group"@, group@),
                    ("sortBy"@, sort_by@),
                    ("page"@, signed_decimal_of(page as int)),
                ],
                None => r == Err::<AuthorizedRequest, Error>(Error::NotAuthenticated),
            },
    {
        let mut query: Vec<(String, String)> = Vec::new();
        query.push((String::from_str("search"), search));
        query.push((String::from_str("category"), category));
        query.push((String::from_str("group"), group));
        query.push((String::from_str("sortBy"), sort_by));
        query.push((String::from_str("page"), signed_decimal(page)));
        let request = ApiRequest { url: self.competitions_list_url(), query };
        let r = self.request(request);
        proof {
            if r is Ok {
                assert(query_view(query@) =~= seq![
                    ("search"@, search@),
                    ("category"@, category@),
                    ("group"@, group@),
                    ("sortBy"@, sort_by@),
                    ("page"@, signed_decimal_of(page as int)),
                ]);
            }
        }
        r
    }

    /// Loads stored credentials without checking them against the API: the
    /// two environment variables when both are set, and otherwise what
    /// `find_file` finds of the credential file, which is only looked for
    /// then. On failure the client is left unchanged.
    pub fn load_credentials<F: FnOnce() -> CredentialFile>(
        &mut self,
        env_username: Option<String>,
        env_key: Option<String>,
        find_file: F,
    ) -> (r: Result<(), Error>)
        requires
            env_pair(env_username, env_key) is None ==> find_file.requires(()),
        ensures
            r is Err ==> final(self)@ == old(self)@,
            match env_pair(env_username, env_key) {
                Some(pair) => r is Ok && final(self)@ == (ClientState {
                    credentials: Some(pair),
                    ..old(self)@
                }),
                None => exists|file: CredentialFile, c: Result<KaggleCredentials, Error>|
                    {
                        &&& find_file.ensures((), file)
                        &&& file_outcome(file, c)
                        &&& match c {
                            Ok(pair) => r is Ok && final(self)@ == (ClientState {
                                credentials: Some(pair@),
                                ..old(self)@
                            }),
                            Err(e) => r == Err::<(), Error>(e) && final(self)@ == old(self)@,
                        }
                    },
            },
    {
        match credentials_from_env(env_username, env_key) {
            Some(c) => {
                self.credentials = Some(c);
                Ok(())
            },
            None => {
                let file = find_file();
                let found = credentials_from_file(file);
                match found {
                    Ok(c) => {
                        self.credentials = Some(c);
                        Ok(())
                    },
                    Err(e) => Err(e),
                }
            },
        }
    }
}

/// The error for a response with a status that is not 2xx: the status as
/// HTTP writes it, and the body text, which is empty where it could not be
/// read.
pub fn api_error(code: u16, body: Option<String>) -> (r: Error)
    ensures
        r matches Error::ApiError(k) && k.code@ == status_text_of(code) && k.message@ == match body {
            Some(b) => b@,
            None => Seq::empty(),
        },
{
    let message = match body {
        Some(b) => b,
        None => String::new(),
    };
    Error::ApiError(KaggleError { code: status_text(code), message })
}

} // verus!
