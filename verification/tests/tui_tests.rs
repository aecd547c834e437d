use ostrich_connect::command::{TransferDirection, UiCommand, UiResponse};
use ostrich_connect::form::{ConnectionForm, FormAction, FormField, FormMode, Key, KeyCode};
use ostrich_connect::navigator::{directory_prefix_matches, status_tone, Tone};
use ostrich_connect::tui::{Effect, Pending, Screen, TuiState};
use ostrich_connect::types::{
    ConnectionProfile, ConnectionSecurity, ProtocolKind, RemoteEntry, RemoteEntryKind,
    SavedConnection,
};

fn key(code: KeyCode) -> Key {
    Key { code, ctrl: false, alt: false }
}

fn ch(c: char) -> Key {
    key(KeyCode::Char(c))
}

fn type_text(s: &mut TuiState, text: &str) {
    for c in text.chars() {
        assert!(matches!(s.on_key_press(ch(c)), Effect::Idle));
    }
}

fn entry(name: &str, kind: RemoteEntryKind) -> RemoteEntry {
    RemoteEntry {
        name: name.to_owned(),
        path: format!("/{name}"),
        kind,
        size: 42,
        modified_unix: None,
    }
}

fn saved(name: &str) -> SavedConnection {
    SavedConnection {
        name: name.to_owned(),
        profile: ConnectionProfile {
            protocol: ProtocolKind::Sftp,
            host: "h".to_owned(),
            port: 22,
            username: "u".to_owned(),
            password: Some("p".to_owned()),
            private_key_pem: None,
            private_key_path: None,
            security: ConnectionSecurity::SshTransport,
            strict_host_key_checking: true,
            passive_mode: false,
        },
    }
}

/// A frontend in the navigator of session 9 at `/`, with three entries.
fn in_navigator() -> TuiState {
    let mut s = TuiState::new(Some("/home/me".to_owned()));
    s.connections.push(saved("box"));
    let e = s.on_key_press(key(KeyCode::Enter));
    assert!(matches!(e, Effect::Send { pending: Pending::Connect, .. }));
    let e = s.on_response(
        Pending::Connect,
        UiResponse::Connected { session_id: 9, protocol: ProtocolKind::Sftp, peer: "h:22".to_owned() },
        "Connected",
    );
    let path = match e {
        Effect::Send { command: UiCommand::ListDirectory { session_id, path }, pending: Pending::List { path: p } } => {
            assert_eq!(session_id, 9);
            assert_eq!(path, p);
            p
        }
        _ => panic!("expected a listing request"),
    };
    assert_eq!(path, "/");
    let e = s.on_response(
        Pending::List { path },
        UiResponse::Directory {
            session_id: 9,
            path: "/".to_owned(),
            entries: vec![
                entry("zeta.txt", RemoteEntryKind::File),
                entry("Docs", RemoteEntryKind::Directory),
                entry("link", RemoteEntryKind::Symlink),
                entry("downloads", RemoteEntryKind::Directory),
            ],
        },
        "Directory",
    );
    assert!(matches!(e, Effect::Idle));
    s
}

#[test]
fn new_state_starts_on_the_list() {
    let s = TuiState::new(None);
    assert!(matches!(s.screen, Screen::Connections));
    assert_eq!(s.status, "Create a connection with n, then press Enter to open it.");
    assert_eq!(s.current_path, "/");
    assert!(!s.should_quit);
}

#[test]
fn creating_a_connection_through_the_form() {
    let mut s = TuiState::new(None);
    s.on_key_press(ch('n'));
    assert!(matches!(s.screen, Screen::Form(_)));
    type_text(&mut s, "box");
    s.on_key_press(key(KeyCode::Tab));
    s.on_key_press(key(KeyCode::Tab));
    type_text(&mut s, "host");
    s.on_key_press(key(KeyCode::Tab));
    s.on_key_press(key(KeyCode::Tab));
    type_text(&mut s, "me");
    s.on_key_press(key(KeyCode::Tab));
    type_text(&mut s, "pw");
    s.on_key_press(key(KeyCode::BackTab));
    s.on_key_press(key(KeyCode::Down));
    for _ in 0..6 {
        s.on_key_press(key(KeyCode::Tab));
    }
    match &s.screen {
        Screen::Form(f) => assert_eq!(f.field, FormField::Submit),
        _ => panic!("expected the form"),
    }
    s.on_key_press(key(KeyCode::Enter));
    assert!(matches!(s.screen, Screen::Connections));
    assert_eq!(s.status, "Connection created.");
    assert_eq!(s.connections.len(), 1);
    assert_eq!(s.connections[0].name, "box");
    assert_eq!(s.connections[0].profile.host, "host");
    assert_eq!(s.connections[0].profile.port, 22);
    assert_eq!(s.connections[0].profile.password.as_deref(), Some("pw"));
    assert_eq!(s.selected_connection, 0);
}

#[test]
fn refused_form_keeps_the_error() {
    let mut s = TuiState::new(None);
    s.on_key_press(ch('n'));
    s.on_key_press(key(KeyCode::BackTab));
    s.on_key_press(key(KeyCode::BackTab));
    s.on_key_press(key(KeyCode::Enter));
    match &s.screen {
        Screen::Form(f) => assert_eq!(f.error.as_deref(), Some("Connection name is required.")),
        _ => panic!("expected the form"),
    }
    s.on_key_press(key(KeyCode::Esc));
    assert!(matches!(s.screen, Screen::Connections));
    assert_eq!(s.status, "Connection edit canceled.");
}

#[test]
fn editing_replaces_in_place() {
    let mut s = TuiState::new(None);
    s.connections.push(saved("one"));
    s.connections.push(saved("two"));
    s.move_connection_cursor(1);
    s.on_key_press(ch('e'));
    let form = match &s.screen {
        Screen::Form(f) => {
            assert_eq!(f.mode, FormMode::Edit(1));
            assert_eq!(f.name, "two");
            assert_eq!(f.port, "22");
            f.duplicate_for_test()
        }
        _ => panic!("expected the form"),
    };
    let mut edited = form;
    edited.name = "TWO".to_owned();
    let built = edited.build_connection();
    s.apply_form_action(edited, FormAction::Save { mode: FormMode::Edit(1), connection: built });
    assert_eq!(s.status, "Connection updated.");
    assert_eq!(s.connections.len(), 2);
    assert_eq!(s.connections[1].name, "TWO");
    assert_eq!(s.selected_connection, 1);
}

trait DuplicateForTest {
    fn duplicate_for_test(&self) -> ConnectionForm;
}

impl DuplicateForTest for ConnectionForm {
    fn duplicate_for_test(&self) -> ConnectionForm {
        ConnectionForm {
            mode: self.mode,
            field: self.field,
            name: self.name.clone(),
            protocol: self.protocol,
            host: self.host.clone(),
            port: self.port.clone(),
            username: self.username.clone(),
            password: self.password.clone(),
            private_key_path: self.private_key_path.clone(),
            private_key_pem: self.private_key_pem.clone(),
            security: self.security,
            strict_host_key_checking: self.strict_host_key_checking,
            passive_mode: self.passive_mode,
            error: self.error.clone(),
        }
    }
}

#[test]
fn connection_cursor_wraps_and_deletion_keeps_it_on_the_list() {
    let mut s = TuiState::new(None);
    s.on_key_press(ch('x'));
    assert_eq!(s.status, "No connection to delete.");
    s.connections.push(saved("a"));
    s.connections.push(saved("b"));
    s.connections.push(saved("c"));
    s.on_key_press(ch('k'));
    assert_eq!(s.selected_connection, 2);
    s.on_key_press(key(KeyCode::Down));
    assert_eq!(s.selected_connection, 0);
    s.on_key_press(ch('k'));
    s.on_key_press(key(KeyCode::Delete));
    assert_eq!(s.status, "Connection deleted.");
    assert_eq!(s.connections.len(), 2);
    assert_eq!(s.selected_connection, 1);
}

#[test]
fn connecting_without_connections_hints() {
    let mut s = TuiState::new(None);
    assert!(matches!(s.on_key_press(key(KeyCode::Enter)), Effect::Idle));
    assert_eq!(s.status, "No saved connection. Press n to create one.");
}

#[test]
fn failed_connection_is_reported() {
    let mut s = TuiState::new(None);
    s.on_response(
        Pending::Connect,
        UiResponse::Error { code: "connection_error".to_owned(), message: "connection failed: refused".to_owned() },
        "Error",
    );
    assert_eq!(s.status, "Connection failed: connection failed: refused");
    s.on_response(Pending::Connect, UiResponse::Success { message: "x".to_owned() }, "Ok(x)");
    assert_eq!(s.status, "Unexpected backend response: Ok(x)");
}

#[test]
fn listing_is_sorted_and_counted() {
    let s = in_navigator();
    assert!(matches!(s.screen, Screen::Navigator));
    assert_eq!(s.session_id, Some(9));
    let names: Vec<&str> = s.entries.iter().map(|e| e.name.as_str()).collect();
    assert_eq!(names, vec!["Docs", "downloads", "link", "zeta.txt"]);
    assert_eq!(s.status, "4 entries in /");
    assert_eq!(s.selected_entry, 0);
}

#[test]
fn navigator_moves_and_jumps() {
    let mut s = in_navigator();
    s.on_key_press(ch('G'));
    assert_eq!(s.selected_entry, 3);
    s.on_key_press(ch('j'));
    assert_eq!(s.selected_entry, 0);
    s.on_key_press(Key { code: KeyCode::Char('d'), ctrl: true, alt: false });
    assert_eq!(s.selected_entry, 2);
    s.on_key_press(Key { code: KeyCode::Char('u'), ctrl: true, alt: false });
    assert_eq!(s.selected_entry, 0);
    s.on_key_press(ch('g'));
    assert_eq!(s.selected_entry, 0);
}

#[test]
fn opening_a_directory_lists_it() {
    let mut s = in_navigator();
    match s.on_key_press(ch('l')) {
        Effect::Send { command: UiCommand::ListDirectory { session_id, path }, .. } => {
            assert_eq!(session_id, 9);
            assert_eq!(path, "/Docs");
        }
        _ => panic!("expected a listing request"),
    }
    assert_eq!(s.current_path, "/Docs");
    match s.on_key_press(ch('h')) {
        Effect::Send { command: UiCommand::ListDirectory { path, .. }, .. } => assert_eq!(path, "/"),
        _ => panic!("expected a listing request"),
    }
    s.on_key_press(ch('G'));
    assert!(matches!(s.on_key_press(key(KeyCode::Enter)), Effect::Idle));
    assert_eq!(s.status, "Selected entry is not a directory.");
}

#[test]
fn folder_search_narrows_and_opens() {
    let mut s = in_navigator();
    s.on_key_press(ch('/'));
    assert_eq!(s.status, "Search mode: type a folder prefix, Esc to cancel.");
    assert_eq!(directory_prefix_matches(&s.entries, "D"), vec![0, 1]);
    assert!(matches!(s.on_key_press(ch('D')), Effect::Idle));
    assert_eq!(s.status, "Search '/D': 2 matches, keep typing.");
    assert!(matches!(s.on_key_press(ch('x')), Effect::Idle));
    assert_eq!(s.status, "Search '/Dx': no directory match.");
    s.on_key_press(key(KeyCode::Backspace));
    assert!(matches!(s.on_key_press(ch('o')), Effect::Idle));
    assert_eq!(s.status, "Search '/Do': 2 matches, keep typing.");
    match s.on_key_press(ch('c')) {
        Effect::Send { command: UiCommand::ListDirectory { path, .. }, .. } => assert_eq!(path, "/Docs"),
        _ => panic!("expected the match to be opened"),
    }
    assert!(s.navigator_search.is_none());
}

#[test]
fn search_can_be_canceled() {
    let mut s = in_navigator();
    s.on_key_press(ch('/'));
    s.on_key_press(key(KeyCode::Backspace));
    assert_eq!(s.status, "Search: /");
    s.on_key_press(key(KeyCode::Esc));
    assert_eq!(s.status, "Search canceled.");
    assert!(s.navigator_search.is_none());
}

#[test]
fn downloading_a_file() {
    let mut s = in_navigator();
    s.on_key_press(ch('d'));
    assert_eq!(s.status, "Cannot download a directory in this scaffold.");
    s.on_key_press(ch('G'));
    s.on_key_press(ch('d'));
    match &s.download_popup {
        Some(p) => assert_eq!(p.local_path, "/home/me/Downloads/zeta.txt"),
        None => panic!("expected the question"),
    }
    match s.on_key_press(ch('y')) {
        Effect::PrepareDownload {
            dir,
            command: UiCommand::DownloadFile { session_id, remote_path, local_path },
        } => {
            assert_eq!(dir.as_deref(), Some("/home/me/Downloads"));
            assert_eq!(session_id, 9);
            assert_eq!(remote_path, "/zeta.txt");
            assert_eq!(local_path, "/home/me/Downloads/zeta.txt");
        }
        _ => panic!("expected the download to be prepared"),
    }
    assert!(s.download_popup.is_none());
    s.on_response(
        Pending::Download,
        UiResponse::TransferCompleted {
            session_id: 9,
            direction: TransferDirection::Download,
            source: "/zeta.txt".to_owned(),
            destination: "/home/me/Downloads/zeta.txt".to_owned(),
        },
        "TransferCompleted",
    );
    assert_eq!(s.status, "Downloaded to /home/me/Downloads/zeta.txt");
    s.download_not_prepared("permission denied");
    assert_eq!(s.status, "Could not prepare Downloads folder: permission denied");
}

#[test]
fn download_question_can_be_declined() {
    let mut s = in_navigator();
    s.on_key_press(ch('G'));
    s.on_key_press(ch('d'));
    assert!(matches!(s.on_key_press(ch('n')), Effect::Idle));
    assert_eq!(s.status, "Download canceled.");
    assert!(s.download_popup.is_none());
}

#[test]
fn leaving_the_navigator_closes_the_session() {
    let mut s = in_navigator();
    match s.on_key_press(ch('q')) {
        Effect::Send { command: UiCommand::Disconnect { session_id }, pending: Pending::Disconnect } => {
            assert_eq!(session_id, 9)
        }
        _ => panic!("expected the session to be closed"),
    }
    assert!(matches!(s.screen, Screen::Connections));
    assert!(s.entries.is_empty());
    assert_eq!(s.current_path, "/");
    assert!(s.session_id.is_none());
    s.on_response(Pending::Disconnect, UiResponse::Disconnected { session_id: 9 }, "Disconnected");
    assert_eq!(s.status, "Disconnected.");
    assert!(matches!(s.refresh_directory(), Effect::Idle));
    assert_eq!(s.status, "No active session.");
}

#[test]
fn control_c_quits_anywhere() {
    let mut s = in_navigator();
    assert!(matches!(
        s.on_key_press(Key { code: KeyCode::Char('c'), ctrl: true, alt: false }),
        Effect::Idle
    ));
    assert!(s.should_quit);
    let mut t = TuiState::new(None);
    t.on_key_press(ch('q'));
    assert!(t.should_quit);
}

#[test]
fn statuses_are_coloured_by_their_words() {
    assert_eq!(status_tone("List FAILED: x"), Tone::Error);
    assert_eq!(status_tone("Connected to h via sftp."), Tone::Success);
    assert_eq!(status_tone("Download canceled."), Tone::Warning);
    assert_eq!(status_tone("4 entries in /"), Tone::Muted);
}

#[test]
fn connection_cursor_check() {
    let mut s = TuiState::new(None);
    assert!(s.connection_cursor_on_list());
    s.selected_connection = 1;
    assert!(!s.connection_cursor_on_list());
    s.connections.push(saved("a"));
    assert!(!s.connection_cursor_on_list());
    s.selected_connection = 0;
    assert!(s.connection_cursor_on_list());
}

#[test]
fn starting_on_a_named_connection() {
    let mut s = TuiState::new(None);
    match s.auto_connect(Ok(vec![saved("a"), saved("b"), saved("b")]), "b") {
        Effect::Send { command: UiCommand::Connect { profile }, pending: Pending::Connect } => {
            assert_eq!(profile.host, "h")
        }
        _ => panic!("expected a connection"),
    }
    assert_eq!(s.selected_connection, 1);
    assert_eq!(s.connections.len(), 3);
    let mut t = TuiState::new(None);
    assert!(matches!(t.auto_connect(Ok(vec![saved("a")]), "zz"), Effect::Idle));
    assert_eq!(t.status, "No saved connection named 'zz'.");
    assert_eq!(t.selected_connection, 0);
    let mut u = TuiState::new(None);
    assert!(matches!(u.auto_connect(Err("could not load config: x".to_owned()), "a"), Effect::Idle));
    assert_eq!(u.status, "could not load config: x");
}
