use space_status::config::{AdminConfig, SpaceConfig};
use space_status::credential::ApiKey;
use space_status::server::{
    endpoint_of, serve, Endpoint, Method, Request, Server, SPACE_CLOSE_PATH, SPACE_OPEN_PATH,
    STATUS_V14_PATH,
};
use space_status::status::{ApiVersion, Status};

fn sample_config(admin_enabled: bool) -> SpaceConfig {
    let admin = if admin_enabled {
        AdminConfig { api_key: Some(ApiKey::new("sesame-open")), enabled: true }
    } else {
        AdminConfig { api_key: None, enabled: false }
    };
    SpaceConfig { publish: Status::new("test", "some_logo", "http://localhost"), admin }
}

fn tester(config: SpaceConfig) -> Server {
    serve(config, 1_700_000_000)
}

fn admin_routes() -> Vec<String> {
    vec![SPACE_OPEN_PATH.to_string(), SPACE_CLOSE_PATH.to_string()]
}

fn get(path: &str) -> Request {
    Request { method: Method::Get, path: path.to_string(), api_key: None }
}

fn post(path: &str, key: Option<&str>) -> Request {
    Request { method: Method::Post, path: path.to_string(), api_key: key.map(|k| k.to_string()) }
}

#[test]
fn check_space_name() {
    let mut client = tester(sample_config(false));
    let response = client.dispatch(&get(STATUS_V14_PATH), 1_700_000_001);
    assert_eq!(200, response.code);

    let response = response.body.unwrap();
    assert_eq!("test", response.space);
}

#[test]
fn check_enabled_admin_api_not_authorized_without_api_key() {
    let mut client = tester(sample_config(true));
    for route in admin_routes() {
        let response = client.dispatch(&post(&route, None), 1_700_000_001);
        assert_eq!(401, response.code);
    }
}

#[test]
fn check_enabled_admin_api_not_authorized_with_invalid_api_key() {
    let mut client = tester(sample_config(true));
    for route in admin_routes() {
        let response = client.dispatch(&post(&route, Some("sesame")), 1_700_000_001);
        assert_eq!(401, response.code);
    }
}

#[test]
fn check_enabled_admin_api_authorized_with_valid_api_key() {
    let mut client = tester(sample_config(true));
    for route in admin_routes() {
        let response = client.dispatch(&post(&route, Some("sesame-open")), 1_700_000_001);
        assert_eq!(200, response.code);
    }
}

#[test]
fn check_disabled_admin_api() {
    let mut client = tester(sample_config(false));
    for route in admin_routes() {
        let response = client.dispatch(&post(&route, None), 1_700_000_001);
        assert_eq!(404, response.code);
    }
}

#[test]
fn disabled_admin_ignores_even_a_correct_key() {
    let mut config = sample_config(false);
    config.admin.api_key = Some(ApiKey::new("sesame-open"));
    let mut client = tester(config);
    for route in admin_routes() {
        let response = client.dispatch(&post(&route, Some("sesame-open")), 1_700_000_001);
        assert_eq!(404, response.code);
        assert!(response.body.is_none());
    }
    assert!(!client.guard().is_open());
}

#[test]
fn open_then_status_reports_open() {
    let mut client = tester(sample_config(true));
    let before = client.dispatch(&get(STATUS_V14_PATH), 1_700_000_001).body.unwrap();
    assert!(!before.is_open());

    let response = client.dispatch(&post(SPACE_OPEN_PATH, Some("sesame-open")), 1_700_000_050);
    assert_eq!(200, response.code);

    let after = client.dispatch(&get(STATUS_V14_PATH), 1_700_000_060).body.unwrap();
    assert!(after.is_open());
    let state = after.state.unwrap();
    assert_eq!(Some(true), state.open);
    assert_eq!(Some(1_700_000_050), state.lastchange);
    assert_eq!(Some(vec![ApiVersion::V14]), after.api_compatibility);
    assert_eq!("some_logo", after.logo);
    assert_eq!("http://localhost", after.url);
}

#[test]
fn rejected_request_leaves_state_unchanged() {
    let mut client = tester(sample_config(true));
    client.dispatch(&post(SPACE_OPEN_PATH, Some("sesame-open")), 1_700_000_010);
    let response = client.dispatch(&post(SPACE_CLOSE_PATH, Some("sesame")), 1_700_000_020);
    assert_eq!(401, response.code);
    let state = client.dispatch(&get(STATUS_V14_PATH), 1_700_000_030).body.unwrap().state.unwrap();
    assert_eq!(Some(true), state.open);
    assert_eq!(Some(1_700_000_010), state.lastchange);
}

#[test]
fn unknown_path_or_method_is_not_found() {
    let mut client = tester(sample_config(true));
    assert_eq!(404, client.dispatch(&get("/spaceapi/v13"), 1).code);
    assert_eq!(404, client.dispatch(&get(SPACE_OPEN_PATH), 1).code);
    assert_eq!(404, client.dispatch(&post(STATUS_V14_PATH, Some("sesame-open")), 1).code);
}

#[test]
fn endpoints_by_method_and_path() {
    assert_eq!(Some(Endpoint::StatusV14), endpoint_of(Method::Get, "/spaceapi/v14"));
    assert_eq!(Some(Endpoint::SpaceOpen), endpoint_of(Method::Post, "/admin/publish/space-open"));
    assert_eq!(Some(Endpoint::SpaceClose), endpoint_of(Method::Post, "/admin/publish/space-close"));
    assert_eq!(None, endpoint_of(Method::Get, "/admin/publish/space-close"));
    assert_eq!(None, endpoint_of(Method::Post, "/spaceapi/v14/"));
}

#[test]
fn header_value_is_taken_unchanged() {
    let mut client = tester(sample_config(true));
    let response = client.dispatch(&post(SPACE_OPEN_PATH, Some(" sesame-open")), 5);
    assert_eq!(401, response.code);
    let response = client.dispatch(&post(SPACE_OPEN_PATH, Some("SESAME-OPEN")), 5);
    assert_eq!(401, response.code);
}
