use idevice::remote_pairing::RpPairingFile;
use remote_pairing::session::{Action, PairingSession, ProgressEvent, Severity, Stage};

fn texts(events: &[ProgressEvent]) -> Vec<String> {
    events.iter().map(|e| e.text.clone()).collect()
}

fn finish_error(a: &Action) -> String {
    match a {
        Action::Finish { result: Err(m) } => m.clone(),
        _ => panic!("expected a failed finish"),
    }
}

fn valid_credential() -> Vec<u8> {
    RpPairingFile::generate("test-host").to_bytes()
}

/// Runs an attempt up to the stage at which the credential is read back.
fn up_to_reading(custom: Option<Vec<u8>>, default: Vec<u8>) -> (PairingSession, Vec<u8>) {
    let (s, _) = PairingSession::start("10.0.0.2:49152".to_string(), custom, default);
    let (s, _) = s.advance(Ok(vec![]));
    let (s, _) = s.advance(Ok(vec![]));
    let (s, a) = s.advance(Ok(vec![]));
    let written = match a {
        Action::WriteCredential { bytes } => bytes,
        _ => panic!("expected a write"),
    };
    let (s, a) = s.advance(Ok(vec![]));
    assert!(matches!(a, Action::ReadCredential));
    assert_eq!(s.stage(), Stage::ReadingFile);
    (s, written)
}

#[test]
fn start_asks_for_connection() {
    let (s, a) = PairingSession::start("192.168.1.5:1234".to_string(), None, vec![1, 2]);
    match a {
        Action::Connect { addr } => assert_eq!(addr, "192.168.1.5:1234"),
        _ => panic!("expected a connect"),
    }
    assert_eq!(s.stage(), Stage::Connecting);
    assert_eq!(
        texts(s.events()),
        vec!["Starting connection process...", "Connecting to 192.168.1.5:1234..."]
    );
}

#[test]
fn refused_connection_names_target() {
    let (s, _) = PairingSession::start("127.0.0.1:1".to_string(), None, vec![1, 2, 3]);
    let (s, a) = s.advance(Err("Connection refused (os error 111)".to_string()));
    let m = finish_error(&a);
    assert!(m.contains("Failed to connect to 127.0.0.1:1"));
    assert_eq!(m, "Failed to connect to 127.0.0.1:1: Connection refused (os error 111)");
    assert_eq!(s.stage(), Stage::Failed);
    let last = s.events().last().unwrap();
    assert_eq!(last.severity, Severity::Error);
    assert_eq!(last.line(), format!("Error: {}", m));
    // Nothing further is asked for: no file is ever created or written.
    let (s, a) = s.advance(Ok(vec![]));
    assert!(matches!(a, Action::Idle));
    assert_eq!(s.events().len(), 3);
}

#[test]
fn empty_custom_credential_fails_to_load() {
    let (s, written) = up_to_reading(Some(vec![]), vec![9, 9]);
    assert!(written.is_empty());
    let (s, a) = s.advance(Ok(vec![]));
    let m = finish_error(&a);
    assert!(m.starts_with("Failed to read pairing file from sandbox: "));
    assert_eq!(s.stage(), Stage::Failed);
    assert_eq!(s.events().last().unwrap().severity, Severity::Error);
}

#[test]
fn custom_credential_is_written_verbatim() {
    let bytes = vec![0u8, 255, 7, 42, 1];
    let (s, written) = up_to_reading(Some(bytes.clone()), vec![9, 9]);
    assert_eq!(written, bytes);
    assert_eq!(texts(s.events())[3], "Using custom pairing file (5 bytes)");
}

#[test]
fn default_credential_is_written_when_none_supplied() {
    let default = vec![3u8; 1234];
    let (s, written) = up_to_reading(None, default.clone());
    assert_eq!(written, default);
    assert_eq!(texts(s.events())[3], "Using default baked-in plist (1234 bytes)");
}

#[test]
fn successful_attempt_logs_in_order() {
    let cred = valid_credential();
    let n = cred.len();
    let (s, _) = up_to_reading(Some(cred.clone()), vec![]);
    let (s, a) = s.advance(Ok(cred));
    match a {
        Action::Handshake { host, code, .. } => {
            assert_eq!(host, "idevice-rs-jkcoxson");
            assert_eq!(code, "000000");
        }
        _ => panic!("expected the handshake"),
    }
    let (s, a) = s.advance(Ok(vec![]));
    assert!(matches!(a, Action::Finish { result: Ok(()) }));
    assert_eq!(s.stage(), Stage::Done);
    assert_eq!(
        texts(s.events()),
        vec![
            "Starting connection process...".to_string(),
            "Connecting to 10.0.0.2:49152...".to_string(),
            "Socket connected.".to_string(),
            format!("Using custom pairing file ({} bytes)", n),
            "Preparing pairing file in sandbox...".to_string(),
            "Pairing file loaded. Initializing client...".to_string(),
            "Pairing with code 000000...".to_string(),
            "oh yeah we're connected".to_string(),
        ]
    );
    assert!(s.events().iter().all(|e| e.severity == Severity::Info));
    let (s, a) = s.advance(Err("late".to_string()));
    assert!(matches!(a, Action::Idle));
    assert_eq!(s.stage(), Stage::Done);
}

#[test]
fn temp_dir_failure() {
    let (s, _) = PairingSession::start("a:1".to_string(), None, vec![]);
    let (s, _) = s.advance(Ok(vec![]));
    let (s, a) = s.advance(Err("no temp dir".to_string()));
    assert_eq!(finish_error(&a), "Failed to resolve temp directory: no temp dir");
    assert_eq!(s.events().len(), 4);
}

#[test]
fn create_failures_name_the_source() {
    for (custom, word) in [(Some(vec![1u8]), "custom"), (None, "default")] {
        let (s, _) = PairingSession::start("a:1".to_string(), custom, vec![2]);
        let (s, _) = s.advance(Ok(vec![]));
        let (s, a) = s.advance(Ok(vec![]));
        assert!(matches!(a, Action::CreateCredentialFile));
        let (_, a) = s.advance(Err("denied".to_string()));
        assert_eq!(finish_error(&a), format!("Failed to create {} temp file: denied", word));
    }
}

#[test]
fn write_failures_name_the_source() {
    for (custom, word) in [(Some(vec![1u8]), "custom"), (None, "default")] {
        let (s, _) = PairingSession::start("a:1".to_string(), custom, vec![2]);
        let (s, _) = s.advance(Ok(vec![]));
        let (s, _) = s.advance(Ok(vec![]));
        let (s, _) = s.advance(Ok(vec![]));
        let (_, a) = s.advance(Err("disk full".to_string()));
        assert_eq!(finish_error(&a), format!("Failed to write {} temp file: disk full", word));
    }
}

#[test]
fn read_failure() {
    let (s, _) = up_to_reading(None, vec![1]);
    let (_, a) = s.advance(Err("not found".to_string()));
    assert_eq!(finish_error(&a), "Failed to read pairing file from sandbox: not found");
}

#[test]
fn handshake_failure() {
    let cred = valid_credential();
    let (s, _) = up_to_reading(Some(cred.clone()), vec![]);
    let (s, _) = s.advance(Ok(cred));
    let (s, a) = s.advance(Err("Timeout".to_string()));
    assert_eq!(finish_error(&a), "no connect :(: Timeout");
    assert_eq!(s.events().len(), 8);
    assert_eq!(s.events()[7].severity, Severity::Error);
    assert!(s.events()[..7].iter().all(|e| e.severity == Severity::Info));
}

#[test]
fn info_line_has_no_prefix() {
    let e = ProgressEvent { severity: Severity::Info, text: "Socket connected.".to_string() };
    assert_eq!(e.line(), "Socket connected.");
}
