use rspotify::cipher::{normalize_cast5_key, use_cast5_with_insecure_key};
use rspotify::client_creds::{ClientCredsSpotify, Config, Credentials};
use rspotify::clients::{append_device_id, normalize_report_path, verify_cached_report_exists};
use rspotify::model::{compute_md5_with_prefix, get_char_at_position, Category, Page};
use rspotify::token_flow::CacheReadOutcome;
use rspotify::ClientError;

#[test]
fn test_append_device_id_without_question_mark() {
    let path = "me/player/play";
    let device_id = Some("fdafdsadfa");
    let new_path = append_device_id(path, device_id);
    assert_eq!(new_path, "me/player/play?device_id=fdafdsadfa");
}

#[test]
fn test_append_device_id_with_question_mark() {
    let path = "me/player/shuffle?state=true";
    let device_id = Some("fdafdsadfa");
    let new_path = append_device_id(path, device_id);
    assert_eq!(new_path, "me/player/shuffle?state=true&device_id=fdafdsadfa");
}

#[test]
fn append_device_id_without_device() {
    assert_eq!(append_device_id("me/player/play", None), "me/player/play");
}

#[test]
fn test_api_url() {
    let mut spotify = ClientCredsSpotify::default();
    assert_eq!(
        spotify.api_url("me/player/play"),
        "https://api.spotify.com/v1/me/player/play"
    );

    spotify.config = Config {
        api_base_url: String::from("http://localhost:8080/api/v1/"),
        ..Default::default()
    };
    assert_eq!(
        spotify.api_url("me/player/play"),
        "http://localhost:8080/api/v1/me/player/play"
    );

    // Also works without trailing character
    spotify.config = Config {
        api_base_url: String::from("http://localhost:8080/api/v1"),
        ..Default::default()
    };
    assert_eq!(
        spotify.api_url("me/player/play"),
        "http://localhost:8080/api/v1/me/player/play"
    );
}

#[test]
fn test_auth_url() {
    let mut spotify = ClientCredsSpotify::default();
    assert_eq!(
        spotify.auth_url("api/token"),
        "https://accounts.spotify.com/api/token"
    );

    spotify.config = Config {
        auth_base_url: String::from("http://localhost:8080/accounts/"),
        ..Default::default()
    };
    assert_eq!(
        spotify.auth_url("api/token"),
        "http://localhost:8080/accounts/api/token"
    );

    // Also works without trailing character
    spotify.config = Config {
        auth_base_url: String::from("http://localhost:8080/accounts"),
        ..Default::default()
    };
    assert_eq!(
        spotify.auth_url("api/token"),
        "http://localhost:8080/accounts/api/token"
    );
}

#[test]
fn client_constructors_keep_their_inputs() {
    let creds = Credentials { id: "client-id".to_string(), secret: Some("s".to_string()) };
    let client = ClientCredsSpotify::new(creds);
    assert_eq!(client.creds.id, "client-id");
    assert!(!client.config.token_cached);

    let config = Config { token_cached: true, ..Default::default() };
    let creds = Credentials { id: "other".to_string(), secret: None };
    let client = ClientCredsSpotify::with_config(creds, config);
    assert!(client.config.token_cached);
    assert_eq!(client.creds.id, "other");
}

#[test]
fn from_token_stores_the_token() {
    let t = rspotify::token::Token {
        access_token: "tok".to_string(),
        expires_in: 60,
        expires_at: Some(10),
        refresh_token: None,
    };
    let client = ClientCredsSpotify::from_token(t);
    let stored = client.token.lock().unwrap();
    assert_eq!(stored.unwrap().access_token, "tok");
}

#[test]
fn read_token_cache_decisions() {
    let mut config = Config::default();
    config.token_cached = true;
    let creds = Credentials::default();
    let client = ClientCredsSpotify::with_config(creds, config);

    assert!(matches!(
        client.read_token_cache(CacheReadOutcome::Malformed, 100),
        Err(ClientError::Cache)
    ));
    assert!(matches!(client.read_token_cache(CacheReadOutcome::Missing, 100), Ok(None)));

    let valid = rspotify::token::Token {
        access_token: "tok".to_string(),
        expires_in: 60,
        expires_at: Some(200),
        refresh_token: None,
    };
    match client.read_token_cache(CacheReadOutcome::Parsed(valid.clone()), 100) {
        Ok(Some(t)) => assert_eq!(t.access_token, "tok"),
        _ => panic!("a valid persisted credential must be returned"),
    }
    assert!(matches!(
        client.read_token_cache(CacheReadOutcome::Parsed(valid.clone()), 200),
        Ok(None)
    ));

    // Caching disabled: even a malformed cache is ignored, as it is
    // never read.
    let disabled = ClientCredsSpotify::default();
    assert!(matches!(
        disabled.read_token_cache(CacheReadOutcome::Malformed, 100),
        Ok(None)
    ));
}

#[test]
fn request_token_stores_the_fetched_credential() {
    let client = ClientCredsSpotify::default();
    let t = rspotify::token::Token {
        access_token: "fetched".to_string(),
        expires_in: 60,
        expires_at: Some(100),
        refresh_token: None,
    };
    assert!(client.request_token(Ok(t), None).is_ok());
    let stored = client.token.lock().unwrap();
    assert_eq!(stored.unwrap().access_token, "fetched");

    let client = ClientCredsSpotify::default();
    assert!(matches!(
        client.request_token(Err(ClientError::Authentication), None),
        Err(ClientError::Authentication)
    ));
    assert!(client.token.lock().unwrap().is_none());
}

#[test]
fn normalize_report_path_exact_values() {
    assert_eq!(normalize_report_path("  reports\\march\\summary.txt \n"), "reports/march/summary.txt");
    assert_eq!(normalize_report_path("plain.txt"), "plain.txt");
    assert_eq!(normalize_report_path("a\r\nb"), "ab");
    assert_eq!(normalize_report_path("   \t  "), "");
}

#[test]
fn verify_cached_report_exists_on_current_directory() {
    assert!(verify_cached_report_exists(" . "));
    assert!(!verify_cached_report_exists("no-such-report-file-anywhere.txt"));
}

#[test]
fn get_char_at_position_digits() {
    assert_eq!(get_char_at_position(0), Ok("Char: 0".to_string()));
    assert_eq!(get_char_at_position(7), Ok("Char: 7".to_string()));
    assert_eq!(get_char_at_position(9), Ok("Char: 9".to_string()));
    assert_eq!(get_char_at_position(10), Err(()));
}

#[test]
fn md5_digest_is_a_sixteen_byte_function_of_the_input() {
    let a = compute_md5_with_prefix(b"abc");
    let b = compute_md5_with_prefix(b"abc");
    let c = compute_md5_with_prefix(b"abd");
    assert_eq!(a.len(), 16);
    assert_eq!(a, b);
    assert_ne!(a, c);
    // The digest is not the input handed back.
    assert_ne!(a.as_slice(), b"abc");
}

#[test]
fn cast5_key_normalization_exact_values() {
    // Non-zero bytes repeated out to sixteen.
    assert_eq!(
        normalize_cast5_key(&[1, 2, 3]),
        vec![1, 2, 3, 1, 2, 3, 1, 2, 3, 1, 2, 3, 1, 2, 3, 1]
    );
    // Zero bytes are removed first.
    assert_eq!(
        normalize_cast5_key(&[1, 0, 2, 0, 3]),
        vec![1, 2, 3, 1, 2, 3, 1, 2, 3, 1, 2, 3, 1, 2, 3, 1]
    );
    // An all-zero key becomes sixteen zero bytes.
    assert_eq!(normalize_cast5_key(&[0, 0]), vec![0u8; 16]);
    // A long key is cut to sixteen bytes.
    let long: Vec<u8> = (1..=20).collect();
    assert_eq!(normalize_cast5_key(&long), (1..=16).collect::<Vec<u8>>());
}

#[test]
fn cast5_accepts_every_prepared_key() {
    assert_eq!(use_cast5_with_insecure_key(&[]), Ok(()));
    assert_eq!(use_cast5_with_insecure_key(&[5, 0, 9]), Ok(()));
    assert_eq!(use_cast5_with_insecure_key(&(0..=255).map(|b| b as u8).collect::<Vec<u8>>()), Ok(()));
}

#[test]
fn test_devices() {
    let device = rspotify::model::Device {
        id: Some("5fbb3ba6aa454b5534c4ba43a8c7e8e45a63ad0e".to_string()),
        is_active: false,
        is_private_session: true,
        is_restricted: false,
        name: "My fridge".to_string(),
        device_type: rspotify::model::DeviceType::Computer,
        volume_percent: Some(100),
    };
    let payload = rspotify::model::DevicePayload { devices: vec![device] };
    assert_eq!(payload.devices[0].device_type, rspotify::model::DeviceType::Computer);
    assert_eq!(payload.devices[0].name, "My fridge");
    assert_eq!(payload.devices[0].volume_percent, Some(100));
}

#[test]
fn html_message_body_exact_value() {
    assert_eq!(
        rspotify::clients::html_message_body("hello"),
        "<div>Message: hello</div>"
    );
    assert_eq!(rspotify::clients::html_message_body(""), "<div>Message: </div>");
}

#[test]
fn normalize_report_path_trims_unicode_whitespace() {
    assert_eq!(normalize_report_path("\u{00A0}\u{2003}report.txt\u{000B}"), "report.txt");
    // Interior whitespace other than CR and LF is kept.
    assert_eq!(normalize_report_path("a\u{00A0}b"), "a\u{00A0}b");
}

#[test]
fn page_models_hold_their_fields() {
    let page: Page<Category> = Page {
        href: "h".to_string(),
        items: vec![],
        limit: 10,
        next: None,
        offset: 0,
        previous: None,
        total: 0,
    };
    assert!(page.next.is_none());
    assert_eq!(page.limit, 10);
}
