use space_status::config::{AdminConfig, SpaceConfig};
use space_status::credential::ApiKey;
use space_status::guard::SpaceGuard;
use space_status::status::{ApiVersion, State, Status};

fn to_document(snapshot: &Status) -> spaceapi_dezentrale::Status {
    let mut doc = spaceapi_dezentrale::StatusBuilder::v14(snapshot.space.as_str())
        .logo(snapshot.logo.as_str())
        .url(snapshot.url.as_str())
        .contact(Default::default())
        .location(Default::default())
        .build()
        .unwrap();
    doc.state = snapshot.state.map(|s| spaceapi_dezentrale::State {
        open: s.open,
        lastchange: s.lastchange,
        ..spaceapi_dezentrale::State::default()
    });
    doc.api_compatibility = snapshot
        .api_compatibility
        .as_ref()
        .map(|v| v.iter().map(|_| spaceapi_dezentrale::ApiVersion::V14).collect());
    doc
}

fn from_document(doc: spaceapi_dezentrale::Status) -> Status {
    let mut status = Status::new(&doc.space, &doc.logo, &doc.url);
    status.state = doc.state.map(|s| State { open: s.open, lastchange: s.lastchange });
    status.api_compatibility =
        doc.api_compatibility.map(|v| v.iter().map(|_| ApiVersion::V14).collect());
    status
}

#[test]
fn json_round_trip_keeps_open_flag_and_version() {
    let config = SpaceConfig {
        publish: Status::new("test", "some_logo", "http://localhost"),
        admin: AdminConfig { api_key: Some(ApiKey::new("sesame-open")), enabled: true },
    };
    let mut guard = SpaceGuard::new(config, 10);
    for open in [false, true] {
        if open {
            guard.open(&ApiKey::new("sesame-open"), 20).unwrap();
        }
        let json = serde_json::to_string(&to_document(&guard.spaceapi_v14())).unwrap();
        assert!(json.contains("\"space\":\"test\""));
        assert!(json.contains("\"api_compatibility\":[\"14\"]"));
        let decoded: spaceapi_dezentrale::Status = serde_json::from_str(&json).unwrap();
        let back = from_document(decoded);
        assert_eq!(open, back.is_open());
        assert_eq!(Some(vec![ApiVersion::V14]), back.api_compatibility);
    }
}
