use ostrich_connect::command::UiResponse;
use ostrich_connect::error::{error_code, OcError};
use ostrich_connect::types::{
    default_editor, AppConfig, ConnectionProfile, ConnectionSecurity, ProtocolKind,
    SavedConnection,
};

fn profile(protocol: ProtocolKind, security: ConnectionSecurity) -> ConnectionProfile {
    ConnectionProfile {
        protocol,
        host: "localhost".to_owned(),
        port: 22,
        username: "demo".to_owned(),
        password: Some("secret".to_owned()),
        private_key_pem: None,
        private_key_path: None,
        security,
        strict_host_key_checking: true,
        passive_mode: false,
    }
}

fn invalid_text(p: &ConnectionProfile) -> String {
    match p.validate() {
        Err(OcError::InvalidProfile(m)) => m,
        _ => panic!("expected an invalid profile"),
    }
}

#[test]
fn ftp_requires_password() {
    let profile = ConnectionProfile {
        protocol: ProtocolKind::Ftp,
        host: "localhost".to_owned(),
        port: 21,
        username: "demo".to_owned(),
        password: None,
        private_key_pem: None,
        private_key_path: None,
        security: ConnectionSecurity::PlainText,
        strict_host_key_checking: false,
        passive_mode: true,
    };

    assert!(profile.validate().is_err());
}

#[test]
fn sftp_accepts_private_key_without_password() {
    let profile = ConnectionProfile {
        protocol: ProtocolKind::Sftp,
        host: "localhost".to_owned(),
        port: 22,
        username: "demo".to_owned(),
        password: None,
        private_key_pem: Some("key".to_owned()),
        private_key_path: None,
        security: ConnectionSecurity::SshTransport,
        strict_host_key_checking: true,
        passive_mode: false,
    };

    assert!(profile.validate().is_ok());
}

#[test]
fn blank_host_is_refused_first() {
    let mut p = profile(ProtocolKind::Sftp, ConnectionSecurity::PlainText);
    p.host = "  \t".to_owned();
    p.port = 0;
    assert_eq!(invalid_text(&p), "host cannot be empty");
}

#[test]
fn zero_port_is_refused() {
    let mut p = profile(ProtocolKind::Sftp, ConnectionSecurity::SshTransport);
    p.port = 0;
    assert_eq!(invalid_text(&p), "port cannot be 0");
}

#[test]
fn blank_username_is_refused() {
    let mut p = profile(ProtocolKind::Sftp, ConnectionSecurity::SshTransport);
    p.username = " ".to_owned();
    assert_eq!(invalid_text(&p), "username cannot be empty");
}

#[test]
fn ftp_needs_plain_text() {
    let p = profile(ProtocolKind::Ftp, ConnectionSecurity::TlsExplicit);
    assert_eq!(invalid_text(&p), "FTP requires security=plain_text");
}

#[test]
fn ftp_password_message() {
    let mut p = profile(ProtocolKind::Ftp, ConnectionSecurity::PlainText);
    p.password = None;
    assert_eq!(invalid_text(&p), "FTP requires password credentials");
}

#[test]
fn ftps_needs_tls() {
    let p = profile(ProtocolKind::Ftps, ConnectionSecurity::PlainText);
    assert_eq!(
        invalid_text(&p),
        "FTPS requires security=tls_explicit or tls_implicit"
    );
    let ok = profile(ProtocolKind::Ftps, ConnectionSecurity::TlsImplicit);
    assert!(ok.validate().is_ok());
}

#[test]
fn ftps_needs_password() {
    let mut p = profile(ProtocolKind::Ftps, ConnectionSecurity::TlsExplicit);
    p.password = None;
    assert_eq!(invalid_text(&p), "FTPS requires password credentials");
}

#[test]
fn sftp_needs_ssh_transport() {
    let p = profile(ProtocolKind::Sftp, ConnectionSecurity::TlsExplicit);
    assert_eq!(invalid_text(&p), "SFTP requires security=ssh_transport");
}

#[test]
fn sftp_needs_some_credentials() {
    let mut p = profile(ProtocolKind::Sftp, ConnectionSecurity::SshTransport);
    p.password = None;
    p.private_key_path = Some("   ".to_owned());
    assert_eq!(
        invalid_text(&p),
        "SFTP requires password, private_key_pem, or private_key_path"
    );
    p.private_key_path = Some("~/.ssh/id_ed25519".to_owned());
    assert!(p.validate().is_ok());
}

#[test]
fn socket_addr_joins_host_and_port() {
    let mut p = profile(ProtocolKind::Sftp, ConnectionSecurity::SshTransport);
    p.host = "example.com".to_owned();
    p.port = 2222;
    assert_eq!(p.socket_addr(), "example.com:2222");
}

#[test]
fn default_config_uses_zed() {
    let c = AppConfig::default();
    assert_eq!(c.default_editor, "zed --wait");
    assert!(c.connections.is_empty());
    assert_eq!(default_editor(), "zed --wait");
}

#[test]
fn normalize_trims_or_restores_editor() {
    let c = AppConfig {
        default_editor: "  vim  ".to_owned(),
        connections: vec![SavedConnection {
            name: "box".to_owned(),
            profile: profile(ProtocolKind::Sftp, ConnectionSecurity::SshTransport),
        }],
    };
    let n = c.normalize();
    assert_eq!(n.default_editor, "vim");
    assert_eq!(n.connections.len(), 1);
    let blank = AppConfig { default_editor: " \n ".to_owned(), connections: Vec::new() };
    let restored = blank.normalize();
    assert_eq!(restored.default_editor, "zed --wait");
    let again = restored.normalize();
    assert_eq!(again.default_editor, "zed --wait");
}

#[test]
fn error_codes_are_stable() {
    assert_eq!(error_code(&OcError::UnsupportedProtocol("x".to_owned())), "unsupported_protocol");
    assert_eq!(error_code(&OcError::InvalidProfile("x".to_owned())), "invalid_profile");
    assert_eq!(error_code(&OcError::InvalidCommand("x".to_owned())), "invalid_command");
    assert_eq!(error_code(&OcError::Connection("x".to_owned())), "connection_error");
    assert_eq!(error_code(&OcError::Authentication), "authentication_failed");
    assert_eq!(error_code(&OcError::Io("x".to_owned())), "io_error");
    assert_eq!(error_code(&OcError::SessionNotFound(7)), "session_not_found");
    assert_eq!(
        error_code(&OcError::OperationNotSupported("x".to_owned())),
        "operation_not_supported"
    );
    assert_eq!(error_code(&OcError::Internal("x".to_owned())), "internal_error");
}

#[test]
fn error_messages_match_display() {
    assert_eq!(OcError::Io("disk".to_owned()).message(), "io error: disk");
    assert_eq!(OcError::Authentication.message(), "authentication failed");
    assert_eq!(
        OcError::InvalidProfile("port cannot be 0".to_owned()).message(),
        "invalid connection profile: port cannot be 0"
    );
    assert_eq!(
        OcError::SessionNotFound(0x0123_4567_89ab_cdef_0011_2233_4455_6677).message(),
        "session not found: 01234567-89ab-cdef-0011-223344556677"
    );
}

#[test]
fn error_response_carries_code_and_message() {
    let r = UiResponse::from_error(&OcError::Connection("refused".to_owned()));
    match r {
        UiResponse::Error { code, message } => {
            assert_eq!(code, "connection_error");
            assert_eq!(message, "connection failed: refused");
        }
        _ => panic!("expected an error response"),
    }
}

#[test]
fn failed_config_load_falls_back_to_default() {
    let loaded = AppConfig { default_editor: "vi".to_owned(), connections: Vec::new() };
    assert_eq!(ostrich_connect::config::config_or_default(Ok(loaded)).default_editor, "vi");
    let fallback =
        ostrich_connect::config::config_or_default(Err(OcError::Io("missing".to_owned())));
    assert_eq!(fallback.default_editor, "zed --wait");
    assert!(fallback.connections.is_empty());
}
