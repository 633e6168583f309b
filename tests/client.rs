use space_status::client::{response_outcome, ClientBuilder, ClientError};

#[test]
fn build_needs_key_and_base_url() {
    assert_eq!(Err("api_key must be set".to_string()), ClientBuilder::new().build().map(|_| ()));
    assert_eq!(
        Err("api_key must be set".to_string()),
        ClientBuilder::new().base_url("http://x").build().map(|_| ())
    );
    assert_eq!(
        Err("base_url must be set".to_string()),
        ClientBuilder::new().api_key("k").build().map(|_| ())
    );
    let client = ClientBuilder::new().api_key("k").base_url("http://x").build().unwrap();
    assert_eq!("k", client.api_key());
    assert_eq!("http://x", client.base_url());
}

#[test]
fn endpoint_urls_share_one_join_rule() {
    let client = ClientBuilder::new().base_url("http://localhost:8000").api_key("k").build().unwrap();
    assert_eq!("http://localhost:8000/admin/publish/space-open", client.open_url());
    assert_eq!("http://localhost:8000/admin/publish/space-close", client.close_url());
    assert_eq!("http://localhost:8000/spaceapi/v14", client.status_url());
}

#[test]
fn answer_codes() {
    assert_eq!(Ok(()), response_outcome(200));
    assert_eq!(Err(ClientError::Rejected), response_outcome(401));
    assert_eq!(Err(ClientError::UnexpectedStatus(404)), response_outcome(404));
    assert_eq!(Err(ClientError::UnexpectedStatus(500)), response_outcome(500));
}
