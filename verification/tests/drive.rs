use a_train::autoscan::{Method, Reply};
use a_train::changes::{ChangedPath, InnerPath, Path};
use a_train::config::{AutoscanConfig, DriveConfig};
use a_train::drive::{Round, Step, SyncOutcome, Turn, CONCURRENCY};
use a_train::payload::Payload;
use a_train::{Atrain, AtrainBuilder, Autoscan, AutoscanError, Config, ConfigError, Credentials, Error};

fn service(drives: &[&str]) -> Atrain {
    Atrain {
        autoscan: Autoscan::new(None, "http://localhost:3030".to_string()),
        drives: drives.iter().map(|drive| drive.to_string()).collect(),
    }
}

fn inner(path: &str, trashed: bool) -> InnerPath {
    InnerPath { drive_id: "drive".to_string(), id: "id".to_string(), path: path.to_string(), trashed }
}

fn ended_well(step: &Step) -> bool {
    matches!(step, Step::End { result: Ok(()), warning: false })
}

#[test]
fn full_rebuild_sends_nothing() {
    let step = service(&["a"]).sync_drive("a", SyncOutcome::FullRebuild);
    assert!(ended_well(&step));
}

#[test]
fn changes_are_sent_to_the_scanner() {
    let changes = vec![
        ChangedPath::Created(Path::File(inner("/x/y", false))),
        ChangedPath::Deleted(Path::File(inner("/p/q/r", false))),
    ];
    let atrain = Atrain {
        autoscan: Autoscan::new(
            Some(Credentials { username: "u".to_string(), password: "p".to_string() }),
            "http://localhost:3030".to_string(),
        ),
        drives: vec!["drive".to_string()],
    };
    match atrain.sync_drive("drive", SyncOutcome::PartialChanges(changes)) {
        Step::Notify(request) => {
            assert_eq!(request.method, Method::Post);
            assert_eq!(request.path, "/triggers/a-train/drive");
            assert_eq!(request.auth.expect("credentials").username, "u");
            assert_eq!(
                request.body,
                Some(Payload::from_folders(vec!["/x".to_string()], vec!["/p/q".to_string()]))
            );
        }
        other => panic!("expected a notification, got {:?}", other),
    }
}

#[test]
fn changes_without_folders_send_nothing() {
    let atrain = service(&["drive"]);
    assert!(ended_well(&atrain.sync_drive("drive", SyncOutcome::PartialChanges(vec![]))));
    let trashed = vec![ChangedPath::Deleted(Path::File(inner("/t/u", true)))];
    assert!(ended_well(&atrain.sync_drive("drive", SyncOutcome::PartialChanges(trashed))));
}

#[test]
fn passing_trouble_ends_the_cycle_well() {
    let step = service(&["a"]).sync_drive("a", SyncOutcome::RecoverableError);
    assert!(matches!(step, Step::End { result: Ok(()), warning: true }));
}

#[test]
fn failure_of_the_tracker_ends_the_cycle() {
    let cause = Error::Bernard("database is locked".to_string());
    match service(&["a"]).sync_drive("a", SyncOutcome::FatalError(cause)) {
        Step::End { result: Err(Error::Bernard(why)), warning: false } => {
            assert_eq!(why, "database is locked")
        }
        other => panic!("expected a failure, got {:?}", other),
    }
}

#[test]
fn tracker_errors_are_told_apart() {
    assert!(matches!(
        SyncOutcome::from_error(true, "partial change list".to_string()),
        SyncOutcome::RecoverableError
    ));
    match SyncOutcome::from_error(false, "unauthorised".to_string()) {
        SyncOutcome::FatalError(Error::Bernard(why)) => assert_eq!(why, "unauthorised"),
        other => panic!("expected a failure, got {:?}", other),
    }
}

#[test]
fn cycle_ends_as_the_scanner_answers() {
    assert!(Atrain::notified(Reply::Status(200)).is_ok());
    assert!(Atrain::notified(Reply::Status(299)).is_ok());
    match Atrain::notified(Reply::Status(301)) {
        Err(Error::AutoscanUnavailable(AutoscanError::Network(Reply::Status(code)))) => {
            assert_eq!(code, 301)
        }
        other => panic!("expected a failure, got {:?}", other),
    }
    match Atrain::notified(Reply::Unreachable("reset".to_string())) {
        Err(Error::AutoscanUnavailable(AutoscanError::Network(Reply::Unreachable(why)))) => {
            assert_eq!(why, "reset")
        }
        other => panic!("expected a failure, got {:?}", other),
    }
}

#[test]
fn round_of_no_drives_is_over_at_once() {
    let mut round = service(&[]).sync();
    assert_eq!(round.next(), Turn::Finish);
    assert!(round.outcome().is_ok());
}

#[test]
fn round_starts_no_more_than_the_ceiling() {
    assert_eq!(CONCURRENCY, 5);
    let mut round = service(&["a", "b", "c", "d", "e", "f", "g"]).sync();
    for place in 0..5 {
        assert_eq!(round.next(), Turn::Start(place));
    }
    assert_eq!(round.next(), Turn::Wait);
    assert_eq!(round.next(), Turn::Wait);
    round.complete(Ok(()));
    assert_eq!(round.next(), Turn::Start(5));
    assert_eq!(round.next(), Turn::Wait);
    round.complete(Ok(()));
    round.complete(Ok(()));
    assert_eq!(round.next(), Turn::Start(6));
    assert_eq!(round.next(), Turn::Wait);
    for _ in 0..4 {
        round.complete(Ok(()));
    }
    assert_eq!(round.next(), Turn::Finish);
    assert!(round.outcome().is_ok());
}

#[test]
fn one_failure_fails_the_round_and_stops_no_drive() {
    let mut round = Round::new(5);
    let mut started = Vec::new();
    while let Turn::Start(place) = round.next() {
        started.push(place);
    }
    assert_eq!(started, vec![0, 1, 2, 3, 4]);
    round.complete(Ok(()));
    round.complete(Err(Error::Bernard("fatal".to_string())));
    // The other drives go on: the round waits for each of them.
    for _ in 0..3 {
        assert_eq!(round.next(), Turn::Wait);
        round.complete(Ok(()));
    }
    assert_eq!(round.next(), Turn::Finish);
    match round.outcome() {
        Err(Error::Bernard(why)) => assert_eq!(why, "fatal"),
        other => panic!("expected the failure, got {:?}", other),
    }
}

#[test]
fn failure_does_not_keep_later_drives_from_starting() {
    let mut round = Round::new(7);
    for place in 0..5 {
        assert_eq!(round.next(), Turn::Start(place));
    }
    round.complete(Err(Error::Unexpected("first".to_string())));
    assert_eq!(round.next(), Turn::Start(5));
    round.complete(Err(Error::Unexpected("second".to_string())));
    assert_eq!(round.next(), Turn::Start(6));
    for _ in 0..5 {
        assert_eq!(round.next(), Turn::Wait);
        round.complete(Ok(()));
    }
    assert_eq!(round.next(), Turn::Finish);
    match round.outcome() {
        Err(Error::Unexpected(why)) => assert_eq!(why, "first"),
        other => panic!("expected the first failure, got {:?}", other),
    }
}

#[test]
fn result_out_of_turn_changes_nothing() {
    let mut round = Round::new(1);
    round.complete(Err(Error::Bernard("nobody was running".to_string())));
    assert_eq!(round.next(), Turn::Start(0));
    assert_eq!(round.next(), Turn::Wait);
    round.complete(Ok(()));
    round.complete(Err(Error::Bernard("nobody was running".to_string())));
    assert_eq!(round.next(), Turn::Finish);
    assert!(round.outcome().is_ok());
}

#[test]
fn passing_trouble_does_not_fail_the_round() {
    let atrain = service(&["a", "b"]);
    let mut round = atrain.sync();
    assert_eq!(round.next(), Turn::Start(0));
    assert_eq!(round.next(), Turn::Start(1));
    for drive in ["a", "b"] {
        match atrain.sync_drive(drive, SyncOutcome::RecoverableError) {
            Step::End { result, warning } => {
                assert!(warning);
                round.complete(result);
            }
            Step::Notify(request) => panic!("nothing is to be sent, got {:?}", request),
        }
    }
    assert_eq!(round.next(), Turn::Finish);
    assert!(round.outcome().is_ok());
}

fn config() -> Config {
    Config {
        autoscan: AutoscanConfig {
            authentication: Some(Credentials {
                username: "conductor".to_string(),
                password: "whistle".to_string(),
            }),
            url: "http://localhost:3030".to_string(),
        },
        drive: DriveConfig {
            account: "account.json".to_string(),
            drives: vec!["one".to_string(), "two".to_string()],
        },
    }
}

#[test]
fn service_is_built_when_the_scanner_is_up() {
    let builder = AtrainBuilder::new(config()).proxy("http://proxy".to_string());
    assert_eq!(builder.autoscan.url, "http://localhost:3030");
    let atrain = builder.build(Reply::Status(200)).expect("the scanner is up");
    assert_eq!(atrain.drives, vec!["one".to_string(), "two".to_string()]);
    assert_eq!(atrain.autoscan.url, "http://localhost:3030");
    assert_eq!(atrain.autoscan.proxy.as_deref(), Some("http://proxy"));
    assert_eq!(atrain.autoscan.auth.expect("credentials").username, "conductor");
}

#[test]
fn service_is_not_built_when_the_scanner_is_down() {
    match AtrainBuilder::new(config()).build(Reply::Status(503)) {
        Err(Error::AutoscanUnavailable(AutoscanError::Network(Reply::Status(code)))) => {
            assert_eq!(code, 503)
        }
        other => panic!("expected a failure, got {:?}", other),
    }
    assert!(AtrainBuilder::new(config()).build(Reply::Unreachable("refused".to_string())).is_err());
    assert!(AtrainBuilder::new(config()).build(Reply::Status(302)).is_ok());
}

#[test]
fn errors_in_words() {
    let network = AutoscanError::Network(Reply::Status(500));
    assert_eq!(Error::AutoscanUnavailable(network).message(), "Autoscan is unavailable");
    assert_eq!(Error::Bernard("x".to_string()).message(), "Bernard");
    assert_eq!(Error::Unexpected("out of luck".to_string()).message(), "out of luck");
    let config = ConfigError::UnexpectedError("no such file".to_string());
    assert_eq!(config.message(), "no such file");
    assert_eq!(Error::Configuration(config).message(), "Invalid configuration");
}

#[test]
fn errors_convert() {
    let error: Error = AutoscanError::Network(Reply::Status(404)).into();
    assert!(matches!(error, Error::AutoscanUnavailable(AutoscanError::Network(Reply::Status(404)))));
    let error: Error = ConfigError::UnexpectedError("bad".to_string()).into();
    assert!(matches!(error, Error::Configuration(ConfigError::UnexpectedError(_))));
}
