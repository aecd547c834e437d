use ostrich_connect::form::{protocol_defaults, ConnectionForm, FormField};
use ostrich_connect::order::{entry_listed_before, sort_entries, text_less};
use ostrich_connect::text::{replace_nul, trim};
use ostrich_connect::tui::TuiState;
use ostrich_connect::types::{
    AppConfig, ConnectionProfile, ConnectionSecurity, ProtocolKind, RemoteEntry, RemoteEntryKind,
};

fn entry(name: &str, kind: RemoteEntryKind, size: u64) -> RemoteEntry {
    RemoteEntry {
        name: name.to_owned(),
        path: format!("/{name}"),
        kind,
        size,
        modified_unix: None,
    }
}

#[test]
fn field_order_goes_round_and_back() {
    let mut f = FormField::Name;
    for _ in 0..13 {
        assert_eq!(f.next().prev(), f);
        f = f.next();
    }
    assert_eq!(f, FormField::Name);
    assert_eq!(FormField::Name.prev(), FormField::Cancel);
    assert_eq!(FormField::Cancel.next(), FormField::Name);
    assert_eq!(FormField::Security.index(), 8);
}

#[test]
fn protocol_cycle_returns_after_three_steps() {
    let mut form = ConnectionForm::new_create();
    assert_eq!(form.protocol, ProtocolKind::Sftp);
    form.cycle_protocol(true);
    assert_eq!(form.protocol, ProtocolKind::Ftps);
    assert_eq!(form.port, "21");
    assert_eq!(form.security, ConnectionSecurity::TlsExplicit);
    form.cycle_protocol(false);
    assert_eq!(form.protocol, ProtocolKind::Sftp);
    assert_eq!(form.port, "22");
    form.cycle_protocol(true);
    form.cycle_protocol(true);
    form.cycle_protocol(true);
    assert_eq!(form.protocol, ProtocolKind::Sftp);
}

#[test]
fn security_cycles_stay_within_the_protocol() {
    let mut form = ConnectionForm::new_create();
    form.cycle_protocol(true);
    form.cycle_security();
    assert_eq!(form.security, ConnectionSecurity::TlsImplicit);
    form.cycle_security();
    assert_eq!(form.security, ConnectionSecurity::TlsExplicit);
    form.cycle_protocol(true);
    form.cycle_security();
    assert_eq!(form.security, ConnectionSecurity::PlainText);
}

#[test]
fn protocol_defaults_pass_validation() {
    for protocol in [ProtocolKind::Ftp, ProtocolKind::Sftp, ProtocolKind::Ftps] {
        let (port, security, passive_mode, strict) = protocol_defaults(protocol);
        let profile = ConnectionProfile {
            protocol,
            host: "h".to_owned(),
            port,
            username: "u".to_owned(),
            password: Some("p".to_owned()),
            private_key_pem: None,
            private_key_path: None,
            security,
            strict_host_key_checking: strict,
            passive_mode,
        };
        assert!(profile.validate().is_ok());
    }
}

#[test]
fn cursor_steps_undo_each_other() {
    let mut s = TuiState::new(None);
    s.entries = vec![
        entry("a", RemoteEntryKind::File, 1),
        entry("b", RemoteEntryKind::File, 1),
        entry("c", RemoteEntryKind::File, 1),
    ];
    for start in 0..3 {
        s.selected_entry = start;
        s.move_entry_cursor(1);
        assert!(s.selected_entry < 3);
        s.move_entry_cursor(-1);
        assert_eq!(s.selected_entry, start);
        s.move_entry_cursor_many(-7);
        assert!(s.selected_entry < 3);
        s.move_entry_cursor_many(7);
        assert_eq!(s.selected_entry, start);
    }
}

#[test]
fn sorting_is_stable_and_ordered() {
    let mut entries = vec![
        entry("b.txt", RemoteEntryKind::File, 1),
        entry("Zed", RemoteEntryKind::Directory, 0),
        entry("A.txt", RemoteEntryKind::File, 1),
        entry("a.txt", RemoteEntryKind::File, 2),
        entry("ln", RemoteEntryKind::Symlink, 0),
        entry("alpha", RemoteEntryKind::Directory, 0),
    ];
    sort_entries(&mut entries);
    let order: Vec<(&str, u64)> = entries.iter().map(|e| (e.name.as_str(), e.size)).collect();
    assert_eq!(
        order,
        vec![("alpha", 0), ("Zed", 0), ("ln", 0), ("A.txt", 1), ("a.txt", 2), ("b.txt", 1)]
    );
    for i in 0..entries.len() {
        for j in (i + 1)..entries.len() {
            assert!(!entry_listed_before(&entries[j], &entries[i]));
        }
    }
    assert!(text_less("Zed", "alpha"));
    assert!(!text_less("abc", "abc"));
}

#[test]
fn normalising_twice_changes_nothing() {
    let c = AppConfig { default_editor: "\t code -w \n".to_owned(), connections: Vec::new() };
    let once = c.normalize();
    assert_eq!(once.default_editor, "code -w");
    let twice = once.clone().normalize();
    assert_eq!(twice.default_editor, once.default_editor);
    assert_eq!(trim(&trim("  x y  ")), trim("  x y  "));
}

#[test]
fn nul_characters_become_spaces() {
    assert_eq!(replace_nul("a\0b\0"), "a b ");
    assert_eq!(replace_nul("plain"), "plain");
}

#[test]
fn form_round_trip_gives_the_connection_back() {
    let c = ostrich_connect::types::SavedConnection {
        name: "box".to_owned(),
        profile: ConnectionProfile {
            protocol: ProtocolKind::Sftp,
            host: "example.com".to_owned(),
            port: 2222,
            username: "me".to_owned(),
            password: None,
            private_key_pem: Some("-----KEY-----".to_owned()),
            private_key_path: Some("~/.ssh/id".to_owned()),
            security: ConnectionSecurity::SshTransport,
            strict_host_key_checking: false,
            passive_mode: true,
        },
    };
    let form = ConnectionForm::from_existing(3, c.clone());
    let b = form.build_connection().unwrap();
    assert_eq!(b.name, c.name);
    assert_eq!(b.profile.host, c.profile.host);
    assert_eq!(b.profile.port, 2222);
    assert_eq!(b.profile.username, c.profile.username);
    assert_eq!(b.profile.password, None);
    assert_eq!(b.profile.private_key_pem, c.profile.private_key_pem);
    assert_eq!(b.profile.private_key_path, c.profile.private_key_path);
    assert!(b.profile.passive_mode);
    assert!(!b.profile.strict_host_key_checking);
}
