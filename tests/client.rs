use kaggle_mcp_rs::{
    api_error, parse_credentials_document, ApiRequest, CredentialFile, Error, KaggleClient,
};

fn create_test_client() -> KaggleClient {
    KaggleClient::new()
        .with_api_base("http://127.0.0.1:8080/api/v1".to_string())
        .skip_save_credentials()
}

fn stored_pair(client: &KaggleClient) -> (String, String) {
    let probe = ApiRequest { url: "https://example.com".to_string(), query: vec![] };
    let sent = client.request(probe).unwrap();
    (sent.username, sent.key)
}

fn transport_error() -> reqwest::Error {
    reqwest::Client::new().get("not a url").build().unwrap_err()
}

#[test]
fn test_new_client() {
    let client = create_test_client();
    assert!(!client.is_authenticated());
}

#[test]
fn test_authenticate_success() {
    let mut client = create_test_client();
    let result = client.authenticate("test_user".to_string(), "test_key".to_string(), Ok(200));
    assert!(result.is_ok());
    assert!(client.is_authenticated());
}

#[test]
fn test_authenticate_failure() {
    let mut client = create_test_client();
    let result =
        client.authenticate("invalid_user".to_string(), "invalid_key".to_string(), Ok(401));
    assert!(result.is_err());
    match result {
        Err(Error::AuthenticationError(msg)) => {
            assert!(msg.contains("401"));
        }
        _ => panic!("Expected AuthenticationError"),
    }
    assert!(!client.is_authenticated());
}

#[test]
fn test_load_credentials_from_env() {
    let mut client = KaggleClient::new();
    let result = client.load_credentials(
        Some("env_user".to_string()),
        Some("env_key".to_string()),
        || panic!("the credential file must not be consulted"),
    );
    assert!(result.is_ok());
    assert!(client.is_authenticated());
}

#[test]
fn test_load_credentials_not_found() {
    let mut client = KaggleClient::new();
    let result = client.load_credentials(None, None, || CredentialFile::Missing);
    assert!(result.is_err());
    match result {
        Err(Error::NotAuthenticated) => {}
        _ => panic!("Expected NotAuthenticated error"),
    }
}

#[test]
fn test_request_without_auth() {
    let client = create_test_client();
    let builder = ApiRequest { url: "https://example.com".to_string(), query: vec![] };
    let result = client.request(builder);
    assert!(result.is_err());
    match result {
        Err(Error::NotAuthenticated) => {}
        _ => panic!("Expected NotAuthenticated error"),
    }
}

#[test]
fn test_client_stores_credentials() {
    let mut client = KaggleClient::new();
    assert!(!client.is_authenticated());
    let loaded = client.load_credentials(
        Some("test".to_string()),
        Some("test_key".to_string()),
        || CredentialFile::Missing,
    );
    assert!(loaded.is_ok());
    assert!(client.is_authenticated());
}

#[test]
fn default_base_is_kaggle() {
    assert_eq!(KaggleClient::api_base(), "https://www.kaggle.com/api/v1");
    let client = KaggleClient::new();
    let probe = client.auth_probe("u", "k");
    assert_eq!(probe.request.url, "https://www.kaggle.com/api/v1/competitions/list");
    assert!(probe.request.query.is_empty());
    assert_eq!(probe.username, "u");
    assert_eq!(probe.key, "k");
}

#[test]
fn probe_uses_injected_base() {
    let client = create_test_client();
    let probe = client.auth_probe("test_user", "test_key");
    assert_eq!(probe.request.url, "http://127.0.0.1:8080/api/v1/competitions/list");
}

#[test]
fn authenticate_stores_exactly_the_pair_and_returns_its_document() {
    let mut client = KaggleClient::new();
    assert!(!client.is_authenticated());
    let document = client
        .authenticate("alice".to_string(), "s3cr\"et".to_string(), Ok(204))
        .unwrap()
        .expect("a persisting client hands back the document");
    assert_eq!(document, "{\n  \"username\": \"alice\",\n  \"key\": \"s3cr\\\"et\"\n}");
    assert!(client.is_authenticated());
    assert_eq!(stored_pair(&client), ("alice".to_string(), "s3cr\"et".to_string()));
    let back = parse_credentials_document(&document).unwrap();
    assert_eq!(back.username, "alice");
    assert_eq!(back.key, "s3cr\"et");
}

#[test]
fn authenticate_without_persistence_returns_no_document() {
    let mut client = create_test_client();
    let result = client.authenticate("u".to_string(), "k".to_string(), Ok(299));
    assert!(matches!(result, Ok(None)));
    assert_eq!(stored_pair(&client), ("u".to_string(), "k".to_string()));
}

#[test]
fn authenticate_rejection_names_the_status() {
    let mut client = create_test_client();
    match client.authenticate("u".to_string(), "k".to_string(), Ok(403)) {
        Err(Error::AuthenticationError(msg)) => {
            assert_eq!(msg, "Invalid credentials: 403 Forbidden");
        }
        _ => panic!("Expected AuthenticationError"),
    }
    match client.authenticate("u".to_string(), "k".to_string(), Ok(300)) {
        Err(Error::AuthenticationError(msg)) => {
            assert_eq!(msg, "Invalid credentials: 300 Multiple Choices");
        }
        _ => panic!("Expected AuthenticationError"),
    }
    assert!(!client.is_authenticated());
}

#[test]
fn authenticate_transport_failure_is_http_error() {
    let mut client = create_test_client();
    let result = client.authenticate("u".to_string(), "k".to_string(), Err(transport_error()));
    assert!(matches!(result, Err(Error::HttpError(_))));
    assert!(!client.is_authenticated());
}

#[test]
fn rejected_reauthentication_keeps_the_stored_pair() {
    let mut client = create_test_client();
    client.authenticate("first".to_string(), "one".to_string(), Ok(200)).unwrap();
    let again = client.authenticate("second".to_string(), "two".to_string(), Ok(401));
    assert!(again.is_err());
    assert_eq!(stored_pair(&client), ("first".to_string(), "one".to_string()));
    client.authenticate("third".to_string(), "three".to_string(), Ok(200)).unwrap();
    assert_eq!(stored_pair(&client), ("third".to_string(), "three".to_string()));
}

#[test]
fn environment_wins_over_a_conflicting_file() {
    let mut client = KaggleClient::new();
    let result = client.load_credentials(
        Some("env_user".to_string()),
        Some("env_key".to_string()),
        || CredentialFile::Contents("{\"username\": \"file_user\", \"key\": \"file_key\"}".to_string()),
    );
    assert!(result.is_ok());
    assert_eq!(stored_pair(&client), ("env_user".to_string(), "env_key".to_string()));
}

#[test]
fn a_single_environment_variable_falls_through_to_the_file() {
    let mut client = KaggleClient::new();
    let result = client.load_credentials(
        Some("env_user".to_string()),
        None,
        || CredentialFile::Contents("{\"username\": \"file_user\", \"key\": \"file_key\"}".to_string()),
    );
    assert!(result.is_ok());
    assert_eq!(stored_pair(&client), ("file_user".to_string(), "file_key".to_string()));
}

#[test]
fn no_home_directory_is_not_authenticated() {
    let mut client = KaggleClient::new();
    let result = client.load_credentials(None, Some("k".to_string()), || CredentialFile::NoHomeDirectory);
    assert!(matches!(result, Err(Error::NotAuthenticated)));
    assert!(!client.is_authenticated());
}

#[test]
fn file_without_key_is_invalid_format() {
    let mut client = KaggleClient::new();
    let result = client.load_credentials(None, None, || {
        CredentialFile::Contents("{\"username\": \"file_user\"}".to_string())
    });
    match result {
        Err(Error::Other(msg)) => assert_eq!(msg, "Invalid kaggle.json format"),
        _ => panic!("Expected the invalid format error"),
    }
    assert!(!client.is_authenticated());
}

#[test]
fn unreadable_file_is_io_error() {
    let mut client = KaggleClient::new();
    let result = client.load_credentials(None, None, || {
        CredentialFile::Unreadable(std::io::Error::new(std::io::ErrorKind::PermissionDenied, "denied"))
    });
    assert!(matches!(result, Err(Error::IoError(_))));
}

#[test]
fn malformed_file_is_json_error() {
    let mut client = KaggleClient::new();
    let result = client.load_credentials(None, None, || CredentialFile::Contents("{username".to_string()));
    assert!(matches!(result, Err(Error::JsonError(_))));
    assert!(!client.is_authenticated());
}

#[test]
fn request_attaches_the_stored_pair() {
    let mut client = create_test_client();
    client.authenticate("u".to_string(), "k".to_string(), Ok(200)).unwrap();
    let request = ApiRequest {
        url: "http://127.0.0.1:8080/api/v1/datasets/list".to_string(),
        query: vec![("page".to_string(), "2".to_string())],
    };
    let sent = client.request(request).unwrap();
    assert_eq!(sent.request.url, "http://127.0.0.1:8080/api/v1/datasets/list");
    assert_eq!(sent.request.query, vec![("page".to_string(), "2".to_string())]);
    assert_eq!(sent.username, "u");
    assert_eq!(sent.key, "k");
}

#[test]
fn list_competitions_query_passes_filters_through() {
    let mut client = create_test_client();
    client.authenticate("u".to_string(), "k".to_string(), Ok(200)).unwrap();
    let sent = client
        .list_competitions_request(
            "titanic".to_string(),
            "all".to_string(),
            "general".to_string(),
            "prize".to_string(),
            1,
        )
        .unwrap();
    assert_eq!(sent.request.url, "http://127.0.0.1:8080/api/v1/competitions/list");
    let expected: Vec<(String, String)> = vec![
        ("search".to_string(), "titanic".to_string()),
        ("category".to_string(), "all".to_string()),
        ("group".to_string(), "general".to_string()),
        ("sortBy".to_string(), "prize".to_string()),
        ("page".to_string(), "1".to_string()),
    ];
    assert_eq!(sent.request.query, expected);
    assert_eq!(sent.username, "u");
}

#[test]
fn list_competitions_keeps_odd_values() {
    let mut client = create_test_client();
    client.authenticate("u".to_string(), "k".to_string(), Ok(200)).unwrap();
    let sent = client
        .list_competitions_request(String::new(), "bogus".to_string(), "x y".to_string(), "".to_string(), -12)
        .unwrap();
    assert_eq!(sent.request.query[1].1, "bogus");
    assert_eq!(sent.request.query[2].1, "x y");
    assert_eq!(sent.request.query[4].1, "-12");
}

#[test]
fn list_competitions_unauthenticated() {
    let client = create_test_client();
    let result = client.list_competitions_request(
        "titanic".to_string(),
        "all".to_string(),
        "general".to_string(),
        "prize".to_string(),
        1,
    );
    assert!(matches!(result, Err(Error::NotAuthenticated)));
}

#[test]
fn api_error_carries_status_and_body() {
    match api_error(404, Some("Not found".to_string())) {
        Error::ApiError(k) => {
            assert_eq!(k.code, "404 Not Found");
            assert_eq!(k.message, "Not found");
        }
        _ => panic!("Expected ApiError"),
    }
    match api_error(500, None) {
        Error::ApiError(k) => {
            assert_eq!(k.code, "500 Internal Server Error");
            assert_eq!(k.message, "");
        }
        _ => panic!("Expected ApiError"),
    }
}
