use a_train::autoscan::{Method, Reply, Request, BUFFER};
use a_train::changes::{ChangedPath, InnerPath, Path};
use a_train::payload::{create_payload, Payload};
use a_train::{Autoscan, AutoscanBuilder, AutoscanError, Credentials};

fn credentials() -> Credentials {
    Credentials { username: "conductor".to_string(), password: "whistle".to_string() }
}

fn payload() -> Payload {
    Payload::from_folders(vec!["/this/is/a/full/path".to_string()], vec!["/just/like/me".to_string()])
}

fn network(result: Result<(), AutoscanError>) -> Reply {
    match result {
        Err(AutoscanError::Network(reply)) => reply,
        Ok(()) => panic!("expected a failure"),
    }
}

#[test]
fn probe_asks_for_health() {
    let request: Request = Autoscan::available();
    assert_eq!(request.method, Method::Get);
    assert_eq!(request.path, "/health");
    assert!(request.auth.is_none());
    assert!(request.body.is_none());
}

#[test]
fn probe_is_well_from_200_to_399() {
    for code in [200u16, 204, 299, 300, 301, 399] {
        assert!(Autoscan::probed(Reply::Status(code)).is_ok(), "status {}", code);
    }
    for code in [0u16, 100, 199, 400, 404, 500, 503, 599, 600, u16::MAX] {
        match network(Autoscan::probed(Reply::Status(code))) {
            Reply::Status(kept) => assert_eq!(kept, code),
            Reply::Unreachable(_) => panic!("status {} became a transport failure", code),
        }
    }
}

#[test]
fn probe_fails_without_an_answer() {
    match network(Autoscan::probed(Reply::Unreachable("connection refused".to_string()))) {
        Reply::Unreachable(why) => assert_eq!(why, "connection refused"),
        Reply::Status(_) => panic!("a transport failure became a status"),
    }
}

#[test]
fn trigger_is_posted_to_the_drive() {
    let autoscan = Autoscan::new(None, "http://localhost:3030".to_string());
    let request = autoscan.send_payload("test123", payload());
    assert_eq!(request.method, Method::Post);
    assert_eq!(request.path, "/triggers/a-train/test123");
    assert!(request.auth.is_none());
    assert_eq!(request.body, Some(payload()));
}

#[test]
fn trigger_carries_the_credentials() {
    let autoscan = Autoscan::new(Some(credentials()), "http://localhost:3030".to_string());
    let request = autoscan.send_payload("", Payload::default());
    assert_eq!(request.path, "/triggers/a-train/");
    let auth = request.auth.expect("credentials");
    assert_eq!(auth.username, "conductor");
    assert_eq!(auth.password, "whistle");
    assert_eq!(request.body, Some(Payload::default()));
    // The scanner's own credentials are still there.
    assert_eq!(autoscan.auth.expect("credentials").username, "conductor");
}

#[test]
fn delivery_is_well_from_200_to_299() {
    for code in [200u16, 201, 204, 299] {
        assert!(Autoscan::delivered(Reply::Status(code)).is_ok(), "status {}", code);
    }
    for code in [0u16, 100, 199, 300, 301, 399, 400, 401, 404, 500, 503, u16::MAX] {
        match network(Autoscan::delivered(Reply::Status(code))) {
            Reply::Status(kept) => assert_eq!(kept, code),
            Reply::Unreachable(_) => panic!("status {} became a transport failure", code),
        }
    }
    match network(Autoscan::delivered(Reply::Unreachable("timed out".to_string()))) {
        Reply::Unreachable(why) => assert_eq!(why, "timed out"),
        Reply::Status(_) => panic!("a transport failure became a status"),
    }
}

#[test]
fn builder_keeps_its_settings() {
    let builder = Autoscan::builder("http://scanner".to_string(), Some(credentials()));
    assert_eq!(builder.url, "http://scanner");
    assert!(builder.proxy.is_none());
    let builder: AutoscanBuilder = builder.proxy("http://proxy:8080".to_string());
    assert_eq!(builder.proxy.as_deref(), Some("http://proxy:8080"));
    let autoscan = builder.build();
    assert_eq!(autoscan.url, "http://scanner");
    assert_eq!(autoscan.proxy.as_deref(), Some("http://proxy:8080"));
    assert_eq!(autoscan.auth.expect("credentials").password, "whistle");
}

#[test]
fn credentials_clone_field_by_field() {
    let copy = credentials().clone();
    assert_eq!(copy.username, "conductor");
    assert_eq!(copy.password, "whistle");
}

#[test]
fn network_error_in_words() {
    assert_eq!(AutoscanError::Network(Reply::Status(500)).message(), "network error");
    assert_eq!(BUFFER, 1024);
}

#[test]
fn autoscan_request() {
    let inner = |path: &str| InnerPath {
        drive_id: "test".to_string(),
        id: "test".to_string(),
        path: path.to_string(),
        trashed: false,
    };
    let autoscan = Autoscan::new(None, "http://localhost:3030".to_string());

    let payload: Payload = create_payload(vec![
        ChangedPath::Created(Path::Folder(inner("/this/is/a/full/path"))),
        ChangedPath::Deleted(Path::Folder(inner("/just/like/me"))),
    ]);

    let request = autoscan.send_payload("test123", payload);

    assert_eq!(request.method, Method::Post);
    assert_eq!(request.path, "/triggers/a-train/test123");
    let body = request.body.expect("a body");
    assert_eq!(body.created(), &vec!["/this/is/a/full/path".to_string()]);
    assert_eq!(body.deleted(), &vec!["/just/like/me".to_string()]);
    assert!(Autoscan::delivered(Reply::Status(200)).is_ok());
}
