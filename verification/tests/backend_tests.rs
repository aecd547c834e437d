use ostrich_connect::backend::{disconnect_reply, Backend, SessionOp, Step};
use ostrich_connect::command::{TransferDirection, UiCommand, UiResponse};
use ostrich_connect::error::OcError;
use ostrich_connect::registry::ProtocolRegistry;
use ostrich_connect::types::{
    AppConfig, ConnectionProfile, ConnectionSecurity, ProtocolKind, RemoteEntry, RemoteEntryKind,
};

fn registry() -> ProtocolRegistry<&'static str> {
    let mut r = ProtocolRegistry::new();
    r.register(ProtocolKind::Sftp, "sftp factory");
    r.register(ProtocolKind::Ftp, "ftp factory");
    r
}

fn backend() -> Backend<&'static str, String> {
    Backend::new(registry(), "/tmp/oc/config.json".to_owned(), AppConfig::default())
}

fn sftp_profile() -> ConnectionProfile {
    ConnectionProfile {
        protocol: ProtocolKind::Sftp,
        host: "example.com".to_owned(),
        port: 22,
        username: "alice".to_owned(),
        password: Some("secret".to_owned()),
        private_key_pem: None,
        private_key_path: None,
        security: ConnectionSecurity::SshTransport,
        strict_host_key_checking: true,
        passive_mode: false,
    }
}

fn reply(step: Step<String>) -> UiResponse {
    match step {
        Step::Reply(r) => r,
        _ => panic!("expected a reply"),
    }
}

fn error_parts(r: UiResponse) -> (String, String) {
    match r {
        UiResponse::Error { code, message } => (code, message),
        _ => panic!("expected an error response"),
    }
}

fn connect(b: &mut Backend<&'static str, String>) -> u128 {
    match b.begin(UiCommand::Connect { profile: sftp_profile() }) {
        Step::Connect { profile } => assert_eq!(profile.host, "example.com"),
        _ => panic!("expected a connection to be asked for"),
    }
    match b.finish_connect(ProtocolKind::Sftp, Ok(("session".to_owned(), "example.com:22".to_owned()))) {
        UiResponse::Connected { session_id, protocol, peer } => {
            assert_eq!(protocol, ProtocolKind::Sftp);
            assert_eq!(peer, "example.com:22");
            session_id
        }
        _ => panic!("expected Connected"),
    }
}

#[test]
fn registry_lists_protocols_in_order() {
    let mut r = registry();
    assert_eq!(r.supported(), vec![ProtocolKind::Ftp, ProtocolKind::Sftp]);
    r.register(ProtocolKind::Ftps, "ftps factory");
    r.register(ProtocolKind::Ftp, "other ftp factory");
    assert_eq!(
        r.supported(),
        vec![ProtocolKind::Ftp, ProtocolKind::Ftps, ProtocolKind::Sftp]
    );
    assert_eq!(r.get(ProtocolKind::Ftp), Some(&"other ftp factory"));
    assert!(r.contains(ProtocolKind::Ftps));
}

#[test]
fn supported_protocols_command() {
    let mut b = backend();
    match reply(b.begin(UiCommand::SupportedProtocols)) {
        UiResponse::SupportedProtocols { protocols } => {
            assert_eq!(protocols, vec![ProtocolKind::Ftp, ProtocolKind::Sftp])
        }
        _ => panic!("expected the protocols"),
    }
}

#[test]
fn load_config_gives_the_configuration() {
    let mut b = backend();
    match reply(b.begin(UiCommand::LoadConfig)) {
        UiResponse::Config { config } => assert_eq!(config.default_editor, "zed --wait"),
        _ => panic!("expected the configuration"),
    }
}

#[test]
fn invalid_profile_is_refused_before_connecting() {
    let mut b = backend();
    let mut p = sftp_profile();
    p.security = ConnectionSecurity::PlainText;
    let (code, message) = error_parts(reply(b.begin(UiCommand::Connect { profile: p })));
    assert_eq!(code, "invalid_profile");
    assert_eq!(message, "invalid connection profile: SFTP requires security=ssh_transport");
}

#[test]
fn unregistered_protocol_is_unsupported() {
    let mut b = backend();
    let mut p = sftp_profile();
    p.protocol = ProtocolKind::Ftps;
    p.security = ConnectionSecurity::TlsExplicit;
    let (code, message) = error_parts(reply(b.begin(UiCommand::Connect { profile: p })));
    assert_eq!(code, "unsupported_protocol");
    assert_eq!(message, "unsupported protocol: ftps");
}

#[test]
fn unknown_session_is_not_found() {
    let mut b = backend();
    let (code, message) = error_parts(reply(b.begin(UiCommand::ListDirectory {
        session_id: 1,
        path: "/".to_owned(),
    })));
    assert_eq!(code, "session_not_found");
    assert_eq!(message, "session not found: 00000000-0000-0000-0000-000000000001");
    let (code, _) = error_parts(reply(b.begin(UiCommand::Disconnect { session_id: 1 })));
    assert_eq!(code, "session_not_found");
}

#[test]
fn connected_session_serves_operations() {
    let mut b = backend();
    let id = connect(&mut b);
    assert_eq!((id >> 76) & 0xf, 4);
    let step = b.begin(UiCommand::ListDirectory { session_id: id, path: "/srv".to_owned() });
    let (session, op) = match step {
        Step::Session { session_id, session, op } => {
            assert_eq!(session_id, id);
            (session, op)
        }
        _ => panic!("expected the session to be handed out"),
    };
    assert_eq!(session, "session");
    let entry = RemoteEntry {
        name: "a".to_owned(),
        path: "/srv/a".to_owned(),
        kind: RemoteEntryKind::File,
        size: 3,
        modified_unix: None,
    };
    match b.finish_session(id, session, op, Ok(vec![entry])) {
        UiResponse::Directory { session_id, path, entries } => {
            assert_eq!(session_id, id);
            assert_eq!(path, "/srv");
            assert_eq!(entries.len(), 1);
        }
        _ => panic!("expected the listing"),
    }
    // the session is back: a download goes through
    match b.begin(UiCommand::DownloadFile {
        session_id: id,
        remote_path: "/srv/a".to_owned(),
        local_path: "/tmp/a".to_owned(),
    }) {
        Step::Session { session, op, .. } => match b.finish_session(id, session, op, Ok(Vec::new())) {
            UiResponse::TransferCompleted { direction, source, destination, .. } => {
                assert_eq!(direction, TransferDirection::Download);
                assert_eq!(source, "/srv/a");
                assert_eq!(destination, "/tmp/a");
            }
            _ => panic!("expected a transfer"),
        },
        _ => panic!("expected the session to be handed out"),
    }
}

#[test]
fn failed_operation_reports_and_keeps_session() {
    let mut b = backend();
    let id = connect(&mut b);
    let (session, op) = match b.begin(UiCommand::DeletePath {
        session_id: id,
        remote_path: "/x".to_owned(),
    }) {
        Step::Session { session, op, .. } => (session, op),
        _ => panic!("expected the session"),
    };
    assert!(matches!(op, SessionOp::DeletePath { .. }));
    let (code, message) =
        error_parts(b.finish_session(id, session, op, Err(OcError::Io("denied".to_owned()))));
    assert_eq!(code, "io_error");
    assert_eq!(message, "io error: denied");
    assert!(matches!(
        b.begin(UiCommand::RenamePath { session_id: id, from: "a".to_owned(), to: "b".to_owned() }),
        Step::Session { .. }
    ));
}

#[test]
fn closed_session_is_gone() {
    let mut b = backend();
    let id = connect(&mut b);
    match b.begin(UiCommand::Disconnect { session_id: id }) {
        Step::Disconnect { session_id, session } => {
            assert_eq!(session_id, id);
            assert_eq!(session, "session");
        }
        _ => panic!("expected the session to be closed"),
    }
    assert!(matches!(disconnect_reply(id, Ok(())), UiResponse::Disconnected { session_id } if session_id == id));
    let (code, _) = error_parts(reply(b.begin(UiCommand::ListDirectory {
        session_id: id,
        path: "/".to_owned(),
    })));
    assert_eq!(code, "session_not_found");
}

#[test]
fn failed_connection_records_nothing() {
    let mut b = backend();
    let (code, message) =
        error_parts(b.finish_connect(ProtocolKind::Ftp, Err(OcError::Authentication)));
    assert_eq!(code, "authentication_failed");
    assert_eq!(message, "authentication failed");
}

#[test]
fn saved_config_is_loaded_back() {
    let mut b = backend();
    let config = AppConfig { default_editor: "  nano ".to_owned(), connections: Vec::new() };
    let (path, normalized) = match b.begin(UiCommand::SaveConfig { config }) {
        Step::SaveConfig { path, config } => (path, config),
        _ => panic!("expected the configuration to be written"),
    };
    assert_eq!(path, "/tmp/oc/config.json");
    assert_eq!(normalized.default_editor, "nano");
    match b.finish_save(normalized, Ok(())) {
        UiResponse::Success { message } => assert_eq!(message, "config_saved"),
        _ => panic!("expected success"),
    }
    match reply(b.begin(UiCommand::LoadConfig)) {
        UiResponse::Config { config } => assert_eq!(config.default_editor, "nano"),
        _ => panic!("expected the configuration"),
    }
}

#[test]
fn failed_save_keeps_old_config() {
    let mut b = backend();
    let config = AppConfig { default_editor: "nano".to_owned(), connections: Vec::new() };
    let (code, _) = error_parts(b.finish_save(config, Err(OcError::Io("read-only".to_owned()))));
    assert_eq!(code, "io_error");
    match reply(b.begin(UiCommand::LoadConfig)) {
        UiResponse::Config { config } => assert_eq!(config.default_editor, "zed --wait"),
        _ => panic!("expected the configuration"),
    }
}
