use proxy_checker::identity::{FailureKind, IdentityRecord};
use proxy_checker::oracle::{
    build_client, client_or_failure, construction_failure, fetch_failure, prepare,
    request_failure, ORACLE_URL, REQUEST_TIMEOUT_SECONDS, USER_AGENT,
};

#[test]
fn oracle_settings() {
    assert_eq!(ORACLE_URL, "https://speed.cloudflare.com/meta");
    assert_eq!(REQUEST_TIMEOUT_SECONDS, 10);
    assert!(USER_AGENT.starts_with("Mozilla/5.0 "));
    assert!(USER_AGENT.contains("Chrome/120.0.0.0"));
}

#[test]
fn direct_client_can_be_built() {
    assert!(build_client(None).is_ok());
}

#[test]
fn proxied_client_can_be_built() {
    assert!(build_client(Some("http://127.0.0.1:8080")).is_ok());
}

#[test]
fn rejected_address_is_a_construction_failure() {
    let failure = build_client(Some("http://")).unwrap_err();
    assert_eq!(failure.kind, FailureKind::Construction);
    assert!(!failure.detail.is_empty());
}

#[test]
fn construction_failure_keeps_the_detail() {
    let failure = construction_failure("bad scheme".to_string());
    assert_eq!(failure.kind, FailureKind::Construction);
    assert_eq!(failure.detail, "bad scheme");
}

#[test]
fn request_failure_sorts_by_decoding() {
    let parse = request_failure(true, false, "expected value at line 1".to_string());
    assert_eq!(parse.kind, FailureKind::Parse);
    assert_eq!(parse.detail, "expected value at line 1");
    let network = request_failure(false, false, "connection refused".to_string());
    assert_eq!(network.kind, FailureKind::Network);
    assert_eq!(network.detail, "connection refused");
}

#[test]
fn timeout_is_a_network_failure() {
    assert_eq!(request_failure(false, true, "timed out".to_string()).kind, FailureKind::Network);
    assert_eq!(request_failure(true, true, "timed out".to_string()).kind, FailureKind::Network);
}

#[test]
fn fetch_failure_of_an_error_that_is_no_decode_error() {
    let error = reqwest::Proxy::all("http://").unwrap_err();
    assert!(!error.is_decode());
    let failure = fetch_failure(&error);
    assert_eq!(failure.kind, FailureKind::Network);
    assert_eq!(failure.detail, error.to_string());
}

#[test]
fn records_are_compared_by_address_alone() {
    let a = IdentityRecord {
        ip: "1.2.3.4".to_string(),
        country: Some("ID".to_string()),
        organization: None,
    };
    let b = IdentityRecord {
        ip: "1.2.3.4".to_string(),
        country: None,
        organization: Some("ISP".to_string()),
    };
    let c = IdentityRecord { ip: "1.2.3.5".to_string(), country: None, organization: None };
    assert!(a.same_ip(&b));
    assert!(!a.same_ip(&c));
}

#[test]
fn client_that_was_set_up_is_handed_on() {
    assert!(client_or_failure(Ok(reqwest::Client::new())).is_ok());
}

#[test]
fn error_of_the_setup_becomes_a_construction_failure() {
    let error = reqwest::Proxy::all("").unwrap_err();
    let text = error.to_string();
    let failure = client_or_failure(Err(error)).unwrap_err();
    assert_eq!(failure.kind, FailureKind::Construction);
    assert_eq!(failure.detail, text);
}

#[test]
fn prepared_builder_has_the_timeout_and_the_user_agent() {
    let bare = format!("{:?}", reqwest::Client::builder());
    assert!(!bare.contains("timeout: 10s"));
    assert!(!bare.contains(USER_AGENT));
    let ready = format!("{:?}", prepare(reqwest::Client::builder(), None).unwrap());
    assert!(ready.contains("timeout: 10s"), "{}", ready);
    assert!(ready.contains(USER_AGENT), "{}", ready);
    assert!(!ready.contains("proxies"), "{}", ready);
}

#[test]
fn prepared_builder_routes_through_the_proxy() {
    let ready = prepare(reqwest::Client::builder(), Some("http://10.11.12.13:3128")).unwrap();
    let shown = format!("{:?}", ready);
    assert!(shown.contains("timeout: 10s"), "{}", shown);
    assert!(shown.contains(USER_AGENT), "{}", shown);
    assert!(shown.contains("proxies"), "{}", shown);
    assert!(shown.contains("10.11.12.13:3128"), "{}", shown);
}

#[test]
fn prepare_turns_a_rejected_address_down_with_its_words() {
    for address in ["", "http://", "not a proxy"] {
        let words = reqwest::Proxy::all(address).unwrap_err().to_string();
        let failure = prepare(reqwest::Client::builder(), Some(address)).unwrap_err();
        assert_eq!(failure.kind, FailureKind::Construction);
        assert_eq!(failure.detail, words);
        let failure = build_client(Some(address)).unwrap_err();
        assert_eq!(failure.kind, FailureKind::Construction);
        assert_eq!(failure.detail, words);
    }
}
