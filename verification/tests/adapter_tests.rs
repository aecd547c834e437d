use ostrich_connect::error::OcError;
use ostrich_connect::ftp::{list_entries, FtpProtocolFactory, FtpSession, ListedFile};
use ostrich_connect::ftp::entries_from_listing;
use ostrich_connect::sftp::{
    auth_attempts, auth_error, auth_failure_note, host_key_decision, login_outcome, next_attempt,
    sftp_entry, AuthAttempt, HostKeyCheck, HostKeyDecision, SftpFileType, SftpProtocolFactory,
    SftpSession,
};
use ostrich_connect::types::{ConnectionProfile, ConnectionSecurity, ProtocolKind, RemoteEntryKind};

fn profile(protocol: ProtocolKind, security: ConnectionSecurity) -> ConnectionProfile {
    ConnectionProfile {
        protocol,
        host: "files.example".to_owned(),
        port: 21,
        username: "bob".to_owned(),
        password: Some("pw".to_owned()),
        private_key_pem: None,
        private_key_path: None,
        security,
        strict_host_key_checking: false,
        passive_mode: true,
    }
}

#[test]
fn ftp_factory_plans_a_login() {
    let f = FtpProtocolFactory::new();
    assert_eq!(f.kind(), ProtocolKind::Ftp);
    assert_eq!(f.display_name(), "FTP");
    let plan = f.plan_connect(&profile(ProtocolKind::Ftp, ConnectionSecurity::PlainText)).unwrap();
    assert_eq!(plan.address, "files.example:21");
    assert!(plan.passive_mode);
    assert_eq!(plan.username, "bob");
    assert_eq!(plan.password, "pw");
}

#[test]
fn ftp_factory_refuses_other_profiles() {
    let f = FtpProtocolFactory::new();
    let p = profile(ProtocolKind::Ftps, ConnectionSecurity::TlsExplicit);
    match f.plan_connect(&p) {
        Err(OcError::InvalidProfile(m)) => assert_eq!(m, "FTP factory received a non-FTP profile"),
        _ => panic!("expected a refusal"),
    }
    let mut bad = profile(ProtocolKind::Ftp, ConnectionSecurity::PlainText);
    bad.password = None;
    match f.plan_connect(&bad) {
        Err(OcError::InvalidProfile(m)) => assert_eq!(m, "FTP requires password credentials"),
        _ => panic!("expected a refusal"),
    }
}

#[test]
fn ftp_transfers_change_into_the_parent() {
    let mut s = FtpSession::new("files.example:21".to_owned());
    assert_eq!(s.cwd, "/");
    let plan = s.plan_upload("/tmp/report.pdf", "docs/report.pdf").unwrap();
    assert_eq!(plan.remote_dir, "/docs");
    assert_eq!(plan.remote_name, "report.pdf");
    assert_eq!(s.cwd, "/docs");
    match s.plan_download(" ", "/tmp/x") {
        Err(OcError::InvalidCommand(m)) => {
            assert_eq!(m, "remote_path cannot be empty for this operation")
        }
        _ => panic!("expected an invalid command"),
    }
    assert_eq!(s.cwd, "/docs");
    assert_eq!(s.enter_listing("pub"), "/pub");
    assert_eq!(s.cwd, "/pub");
    assert_eq!(s.plan_delete("a/b").unwrap(), "/a/b");
    assert!(s.check_rename("a", " ").is_err());
    assert!(s.check_rename("a", "b").is_ok());
}

#[test]
fn ftp_listing_lines_become_entries() {
    let lines = vec![
        "drwxr-xr-x    2 ftp      ftp          4096 Jan 01  2020 pub".to_owned(),
        "-rw-r--r--    1 ftp      ftp           123 Jan 01  2020 readme.txt".to_owned(),
        "total 8".to_owned(),
    ];
    let entries = list_entries("/srv", &lines);
    assert_eq!(entries.len(), 2);
    assert_eq!(entries[0].name, "pub");
    assert_eq!(entries[0].path, "/srv/pub");
    assert_eq!(entries[0].kind, RemoteEntryKind::Directory);
    assert_eq!(entries[1].name, "readme.txt");
    assert_eq!(entries[1].path, "/srv/readme.txt");
    assert_eq!(entries[1].size, 123);
    assert_eq!(entries[1].kind, RemoteEntryKind::File);
}

#[test]
fn parsed_files_become_entries_in_order() {
    let files = vec![
        None,
        Some(ListedFile {
            name: "link".to_owned(),
            is_directory: false,
            is_symlink: true,
            size: 7,
            modified_secs: Some(1_700_000_000),
        }),
        Some(ListedFile {
            name: "old".to_owned(),
            is_directory: false,
            is_symlink: false,
            size: 1,
            modified_secs: Some(u64::MAX),
        }),
    ];
    let entries = entries_from_listing("/", files);
    assert_eq!(entries.len(), 2);
    assert_eq!(entries[0].path, "/link");
    assert_eq!(entries[0].kind, RemoteEntryKind::Symlink);
    assert_eq!(entries[0].modified_unix, Some(1_700_000_000));
    assert_eq!(entries[1].modified_unix, None);
}

#[test]
fn sftp_factory_plans_attempts_in_order() {
    let f = SftpProtocolFactory::new();
    assert_eq!(f.kind(), ProtocolKind::Sftp);
    assert_eq!(f.display_name(), "SFTP");
    let mut p = profile(ProtocolKind::Sftp, ConnectionSecurity::SshTransport);
    p.port = 22;
    p.strict_host_key_checking = true;
    p.private_key_pem = Some("PEM".to_owned());
    p.private_key_path = Some("~/.ssh/id".to_owned());
    let home = Some("/home/bob".to_owned());
    let plan = f.plan_connect(&p, &home).unwrap();
    assert_eq!(plan.peer, "files.example:22");
    assert_eq!(plan.known_host_name, "[files.example]:22");
    assert!(plan.strict_host_key_checking);
    assert_eq!(plan.auth.len(), 3);
    match &plan.auth[0] {
        AuthAttempt::PrivateKeyPem { key, passphrase } => {
            assert_eq!(key, "PEM");
            assert_eq!(passphrase.as_deref(), Some("pw"));
        }
        _ => panic!("expected the inline key first"),
    }
    match &plan.auth[1] {
        AuthAttempt::PrivateKeyFile { path, .. } => assert_eq!(path, "/home/bob/.ssh/id"),
        _ => panic!("expected the key file second"),
    }
    match &plan.auth[2] {
        AuthAttempt::Password { password } => assert_eq!(password, "pw"),
        _ => panic!("expected the password last"),
    }
}

#[test]
fn sftp_skips_blank_key_paths() {
    let mut p = profile(ProtocolKind::Sftp, ConnectionSecurity::SshTransport);
    p.private_key_path = Some("  ".to_owned());
    let attempts = auth_attempts(&p, &None);
    assert_eq!(attempts.len(), 1);
    assert!(matches!(attempts[0], AuthAttempt::Password { .. }));
}

#[test]
fn sftp_refuses_ftp_profiles() {
    let f = SftpProtocolFactory::new();
    let p = profile(ProtocolKind::Ftp, ConnectionSecurity::PlainText);
    match f.plan_connect(&p, &None) {
        Err(OcError::InvalidProfile(m)) => assert_eq!(m, "SFTP factory received a non-SFTP profile"),
        _ => panic!("expected a refusal"),
    }
}

#[test]
fn failed_logins_are_summarised() {
    let file = AuthAttempt::PrivateKeyFile { path: "/k".to_owned(), passphrase: None };
    let pass = AuthAttempt::Password { password: "x".to_owned() };
    let notes = vec![
        auth_failure_note(&file, "bad key"),
        auth_failure_note(&pass, "denied"),
    ];
    assert_eq!(notes[0], "private_key_path auth failed (/k): bad key");
    match auth_error(&notes) {
        OcError::Connection(m) => assert_eq!(
            m,
            "authentication failed: private_key_path auth failed (/k): bad key | password auth failed: denied"
        ),
        _ => panic!("expected a connection error"),
    }
    assert!(matches!(auth_error(&Vec::new()), OcError::Authentication));
}

#[test]
fn host_keys_are_checked() {
    assert!(matches!(host_key_decision(HostKeyCheck::Match, true, "/kh"), HostKeyDecision::Accept));
    match host_key_decision(HostKeyCheck::Mismatch, false, "/kh") {
        HostKeyDecision::Reject(OcError::Connection(m)) => {
            assert_eq!(m, "host key mismatch (possible MITM)")
        }
        _ => panic!("expected a rejection"),
    }
    match host_key_decision(HostKeyCheck::NotFound, true, "/kh") {
        HostKeyDecision::Reject(OcError::Connection(m)) => assert_eq!(m, "host key not found in /kh"),
        _ => panic!("expected a rejection"),
    }
    assert!(matches!(
        host_key_decision(HostKeyCheck::NotFound, false, "/kh"),
        HostKeyDecision::Remember
    ));
    assert!(matches!(host_key_decision(HostKeyCheck::Failure, false, "/kh"), HostKeyDecision::Accept));
    match host_key_decision(HostKeyCheck::Failure, true, "/kh") {
        HostKeyDecision::Reject(OcError::Connection(m)) => assert_eq!(m, "host key check failed"),
        _ => panic!("expected a rejection"),
    }
}

#[test]
fn sftp_items_become_entries() {
    assert!(sftp_entry("/a/.".to_owned(), Some(".".to_owned()), SftpFileType::Directory, None, None).is_none());
    assert!(sftp_entry("/".to_owned(), None, SftpFileType::Directory, None, None).is_none());
    let e = sftp_entry(
        "/a/b".to_owned(),
        Some("b".to_owned()),
        SftpFileType::Other,
        Some(10),
        Some(5),
    )
    .unwrap();
    assert_eq!(e.name, "b");
    assert_eq!(e.kind, RemoteEntryKind::File);
    assert_eq!(e.size, 10);
    assert_eq!(e.modified_unix, Some(5));
    let s = SftpSession { peer: "h:22".to_owned() };
    assert_eq!(s.listing_path("x"), "/x");
    assert!(s.check_transfer("a", "local_path", "", "remote_path").is_err());
}

#[test]
fn logins_stop_at_the_first_success() {
    let attempts = vec![
        AuthAttempt::PrivateKeyPem { key: "k".to_owned(), passphrase: None },
        AuthAttempt::Password { password: "p".to_owned() },
    ];
    let mut results: Vec<Result<(), String>> = Vec::new();
    assert_eq!(next_attempt(&attempts, &results), Some(0));
    results.push(Err("bad key".to_owned()));
    assert_eq!(next_attempt(&attempts, &results), Some(1));
    results.push(Ok(()));
    assert_eq!(next_attempt(&attempts, &results), None);
    assert!(login_outcome(&attempts, &results).is_ok());
    results[1] = Err("denied".to_owned());
    assert_eq!(next_attempt(&attempts, &results), None);
    match login_outcome(&attempts, &results) {
        Err(OcError::Connection(m)) => assert_eq!(
            m,
            "authentication failed: private_key_pem auth failed: bad key | password auth failed: denied"
        ),
        _ => panic!("expected a connection error"),
    }
    assert!(matches!(login_outcome(&Vec::new(), &Vec::new()), Err(OcError::Authentication)));
}

#[test]
fn sftp_listing_keeps_named_items_in_order() {
    let items: Vec<ostrich_connect::sftp::SftpItem> = vec![
        ("".to_owned(), SftpFileType::Directory, None, None),
        ("/srv/b".to_owned(), SftpFileType::Directory, None, Some(7)),
        ("/srv/..".to_owned(), SftpFileType::Directory, None, None),
        ("/srv/a.txt".to_owned(), SftpFileType::Other, Some(12), None),
    ];
    let entries = ostrich_connect::sftp::sftp_entries(&items);
    assert_eq!(entries.len(), 2);
    assert_eq!(entries[0].name, "b");
    assert_eq!(entries[0].path, "/srv/b");
    assert_eq!(entries[0].kind, RemoteEntryKind::Directory);
    assert_eq!(entries[0].modified_unix, Some(7));
    assert_eq!(entries[1].name, "a.txt");
    assert_eq!(entries[1].size, 12);
}

#[test]
fn ftp_listing_reads_each_line() {
    let lines = vec![
        "lrwxrwxrwx    1 ftp      ftp            11 Jan 01  2020 latest -> pub".to_owned(),
        "-rw-r--r--    1 ftp      ftp          2048 Mar 03  2021 notes.md".to_owned(),
    ];
    let entries = list_entries("/", &lines);
    assert_eq!(entries.len(), 2);
    assert_eq!(entries[0].kind, RemoteEntryKind::Symlink);
    assert_eq!(entries[1].name, "notes.md");
    assert_eq!(entries[1].path, "/notes.md");
    assert_eq!(entries[1].size, 2048);
}
