//! Where credentials come from, and the document in which they are kept.
//!
//! Credentials are read from two environment variables, which must both be
//! set, and otherwise from a JSON file `<home>/.kaggle/kaggle.json` holding an
//! object with the string members `username` and `key`.

use crate::error::Error;
use crate::models::KaggleCredentials;
use serde_json::Error as JsonSyntaxError;
use vstd::prelude::*;

verus! {

/// The environment variable that holds the username.
pub const USERNAME_VAR: &'static str = "KAGGLE_USERNAME";

/// The environment variable that holds the API key.
pub const KEY_VAR: &'static str = "KAGGLE_KEY";

/// The directory, under the home directory, of the credential file.
pub const CREDENTIALS_DIR: &'static str = ".kaggle";

/// The name of the credential file.
pub const CREDENTIALS_FILE: &'static str = "kaggle.json";

/// Whether serde_json reads `text` as a JSON document.
pub uninterp spec fn json_accepts(text: Seq<char>) -> bool;

/// The string held by member `key` of the JSON document `text`, if that
/// document is an object with such a member and the member is a string.
pub uninterp spec fn json_string_member(text: Seq<char>, key: Seq<char>) -> Option<Seq<char>>;

/// The JSON string literal, quotes and escapes included, that serde_json
/// writes for `s`.
pub uninterp spec fn json_quoted(s: Seq<char>) -> Seq<char>;

/// Relies on `serde_json::from_str` into a `serde_json::Value`, which
/// succeeds exactly on the documents it accepts, and on `Value::get` with
/// `Value::as_str`, which give the member `key` of an object when it is a
/// string.
#[verifier::external_body]
fn string_member(text: &str, key: &str) -> (r: Result<Option<String>, JsonSyntaxError>)
    ensures
        r is Ok <==> json_accepts(text@),
        r matches Ok(m) ==> match m {
            Some(s) => json_string_member(text@, key@) == Some(s@),
            None => json_string_member(text@, key@) is None,
        },
{
    match serde_json::from_str::<serde_json::Value>(text) {
        Ok(v) => Ok(v.get(key).and_then(serde_json::Value::as_str).map(String::from)),
        Err(e) => Err(e),
    }
}

/// Relies on `serde_json::to_string` of a `str`, which writes it as a JSON
/// string literal. It cannot fail: a `str` is written with `serialize_str`
/// into a `Vec<u8>`, whose writes do not fail.
#[verifier::external_body]
fn quote(s: &str) -> (r: Result<String, JsonSyntaxError>)
    ensures
        r is Ok,
        r matches Ok(q) ==> q@ == json_quoted(s@),
{
    serde_json::to_string(s)
}

/// The credential document for a pair: a JSON object with the members
/// `username` and `key`, one per line.
pub open spec fn document_of(username: Seq<char>, key: Seq<char>) -> Seq<char> {
    "{\n  \"username\": "@ + json_quoted(username) + ",\n  \"key\": "@ + json_quoted(key) + "\n}"@
}

/// The pair that a document holds, when both members are strings.
pub open spec fn document_pair(text: Seq<char>) -> Option<(Seq<char>, Seq<char>)> {
    match (json_string_member(text, "username"@), json_string_member(text, "key"@)) {
        (Some(u), Some(k)) => Some((u, k)),
        _ => None,
    }
}

/// The message of a credential file that is JSON but lacks a member.
pub open spec fn invalid_format_message() -> Seq<char> {
    "Invalid kaggle.json format"@
}

/// Writes the credential document for `username` and `key`: serde_json
/// quotes each string, and the library lays out the object around them.
pub fn credentials_document(username: &str, key: &str) -> (r: String)
    ensures
        r@ == document_of(username@, key@),
{
    let u = quote(username).unwrap();
    let k = quote(key).unwrap();
    String::from_str("{\n  \"username\": ").concat(u.as_str()).concat(",\n  \"key\": ").concat(
        k.as_str(),
    ).concat("\n}")
}

/// Reads the pair out of a credential document.
pub fn parse_credentials_document(text: &str) -> (r: Result<KaggleCredentials, Error>)
    ensures
        r is Ok <==> json_accepts(text@) && document_pair(text@) is Some,
        match r {
            Ok(c) => document_pair(text@) == Some(c@),
            Err(Error::JsonError(_)) => !json_accepts(text@),
            Err(Error::Other(m)) => json_accepts(text@) && document_pair(text@) is None
                && m@ == invalid_format_message(),
            Err(_) => false,
        },
{
    proof {
        reveal_strlit("username");
        reveal_strlit("key");
    }
    let username = match string_member(text, "username") {
        Ok(m) => m,
        Err(e) => {
            return Err(Error::JsonError(e));
        },
    };
    let key = match string_member(text, "key") {
        Ok(m) => m,
        Err(e) => {
            return Err(Error::JsonError(e));
        },
    };
    match (username, key) {
        (Some(username), Some(key)) => Ok(KaggleCredentials { username, key }),
        _ => Err(Error::Other(String::from_str("Invalid kaggle.json format"))),
    }
}

/// What the caller found when it looked for the credential file.
#[derive(Debug)]
pub enum CredentialFile {
    /// The home directory could not be determined.
    NoHomeDirectory,
    /// There is no file at `<home>/.kaggle/kaggle.json`.
    Missing,
    /// The file is there, and reading it failed.
    Unreadable(std::io::Error),
    /// The file's text.
    Contents(String),
}

/// The pair that the two environment variables give: both must be set.
pub open spec fn env_pair(username: Option<String>, key: Option<String>) -> Option<(Seq<char>, Seq<char>)> {
    match (username, key) {
        (Some(u), Some(k)) => Some((u@, k@)),
        _ => None,
    }
}

/// The pair that the environment variables give, when both are set.
pub fn credentials_from_env(username: Option<String>, key: Option<String>) -> (r: Option<
    KaggleCredentials,
>)
    ensures
        match r {
            Some(c) => env_pair(username, key) == Some(c@),
            None => env_pair(username, key) is None,
        },
{
    match (username, key) {
        (Some(username), Some(key)) => Some(KaggleCredentials { username, key }),
        _ => None,
    }
}

/// The outcome of reading credentials from what was found of the file:
/// the pair, or the error as a predicate on it.
pub open spec fn file_outcome(file: CredentialFile, r: Result<KaggleCredentials, Error>) -> bool {
    match file {
        CredentialFile::NoHomeDirectory => r == Err::<KaggleCredentials, Error>(Error::NotAuthenticated),
        CredentialFile::Missing => r == Err::<KaggleCredentials, Error>(Error::NotAuthenticated),
        CredentialFile::Unreadable(e) => r == Err::<KaggleCredentials, Error>(Error::IoError(e)),
        CredentialFile::Contents(text) => match r {
            Ok(c) => json_accepts(text@) && document_pair(text@) == Some(c@),
            Err(Error::JsonError(_)) => !json_accepts(text@),
            Err(Error::Other(m)) => json_accepts(text@) && document_pair(text@) is None
                && m@ == invalid_format_message(),
            Err(_) => false,
        },
    }
}

/// Reads the pair out of what was found of the credential file: without a
/// home directory or a file there are no credentials; a file that cannot be
/// read is an I/O error; a file's text is read as a credential document.
pub fn credentials_from_file(file: CredentialFile) -> (r: Result<KaggleCredentials, Error>)
    ensures
        file_outcome(file, r),
{
    match file {
        CredentialFile::NoHomeDirectory => Err(Error::NotAuthenticated),
        CredentialFile::Missing => Err(Error::NotAuthenticated),
        CredentialFile::Unreadable(e) => Err(Error::IoError(e)),
        CredentialFile::Contents(text) => parse_credentials_document(text.as_str()),
    }
}

/// Without a home directory or a credential file there are no credentials:
/// the outcome is `NotAuthenticated`.
pub proof fn lemma_no_file_is_not_authenticated(file: CredentialFile, r: Result<KaggleCredentials, Error>)
    requires
        file is NoHomeDirectory || file is Missing,
        file_outcome(file, r),
    ensures
        r == Err::<KaggleCredentials, Error>(Error::NotAuthenticated),
{
}

/// A credential file that is JSON but lacks a string `key` member is of an
/// invalid format, which is not `NotAuthenticated`.
pub proof fn lemma_missing_key_is_invalid_format(text: String, r: Result<KaggleCredentials, Error>)
    requires
        json_accepts(text@),
        json_string_member(text@, "key"@) is None,
        file_outcome(CredentialFile::Contents(text), r),
    ensures
        r matches Err(Error::Other(m)) && m@ == invalid_format_message(),
        !(r matches Err(Error::NotAuthenticated)),
{
}

} // verus!
