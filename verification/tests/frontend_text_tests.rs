use ostrich_connect::cli::{
    completion_names, completion_script, connections_from, resolve_connection, Shell,
};
use ostrich_connect::command::UiResponse;
use ostrich_connect::desktop::{
    button_command, profile_for, protocol_from_combo_id, session_after, DesktopButton,
};
use ostrich_connect::command::UiCommand;
use ostrich_connect::form::{ConnectionForm, FormMode};
use ostrich_connect::navigator::{protocol_tone, Tone};
use ostrich_connect::tui::{DownloadPopup, TuiState};
use ostrich_connect::types::{
    AppConfig, ConnectionProfile, ConnectionSecurity, ProtocolKind, RemoteEntry, RemoteEntryKind,
    SavedConnection,
};
use ostrich_connect::view::{
    connection_details, connection_line, connection_list_lines, connections_footer, entry_emphasised,
    entry_line, entry_tone, form_footer, form_lines, form_status_line, form_title,
    navigator_footer, navigator_top_line, popup_lines, selected_details,
};

fn saved(name: &str) -> SavedConnection {
    SavedConnection {
        name: name.to_owned(),
        profile: ConnectionProfile {
            protocol: ProtocolKind::Ftp,
            host: "ftp.example".to_owned(),
            port: 21,
            username: "anon".to_owned(),
            password: Some("x".to_owned()),
            private_key_pem: None,
            private_key_path: None,
            security: ConnectionSecurity::PlainText,
            strict_host_key_checking: false,
            passive_mode: true,
        },
    }
}

#[test]
fn names_resolve_without_ascii_case() {
    let list = vec![saved("Prod-SFTP"), saved("prod-ftp"), saved("staging")];
    let found = resolve_connection(&list, "PROD-ftp").unwrap();
    assert_eq!(found.name, "prod-ftp");
    assert_eq!(
        resolve_connection(&list, "prod").err().unwrap(),
        "connection 'prod' not found. Did you mean: Prod-SFTP, prod-ftp"
    );
    assert_eq!(
        resolve_connection(&list, "dev").err().unwrap(),
        "connection 'dev' not found. Use `oc ls` to list names."
    );
}

#[test]
fn completion_filters_by_lowercase_prefix() {
    let list = vec![saved("Alpha"), saved("beta"), saved("alps")];
    assert_eq!(completion_names(&list, Some("AL".to_owned())), vec!["Alpha", "alps"]);
    assert_eq!(completion_names(&list, None), vec!["Alpha", "beta", "alps"]);
    assert_eq!(completion_names(&list, Some(String::new())).len(), 3);
}

#[test]
fn completion_scripts() {
    let zsh = completion_script(Shell::Zsh);
    assert!(zsh.starts_with("#compdef oc\n"));
    assert!(zsh.contains("connections=(\"${(@f)$(oc __complete_connections \"$words[CURRENT]\")}\")"));
    assert!(zsh.ends_with("compdef _oc oc\n"));
    let bash = completion_script(Shell::Bash);
    assert!(bash.starts_with("_oc_complete() {\n"));
    assert!(bash.contains("cur=\"${COMP_WORDS[COMP_CWORD]}\""));
    assert!(bash.ends_with("complete -F _oc_complete oc\n"));
}

#[test]
fn loaded_connections_or_why_not() {
    let config = AppConfig { default_editor: "vi".to_owned(), connections: vec![saved("a")] };
    assert_eq!(connections_from(UiResponse::Config { config }, "").unwrap().len(), 1);
    assert_eq!(
        connections_from(
            UiResponse::Error { code: "io_error".to_owned(), message: "io error: x".to_owned() },
            ""
        )
        .err()
        .unwrap(),
        "could not load config: io error: x"
    );
    assert_eq!(
        connections_from(UiResponse::Success { message: "m".to_owned() }, "Ok { message: \"m\" }")
            .err()
            .unwrap(),
        "unexpected backend response: Ok { message: \"m\" }"
    );
}

#[test]
fn desktop_profiles_and_choices() {
    let ftps = profile_for(ProtocolKind::Ftps);
    assert_eq!(ftps.port, 21);
    assert_eq!(ftps.security, ConnectionSecurity::TlsExplicit);
    assert!(ftps.passive_mode);
    assert_eq!(ftps.password.as_deref(), Some("change-me"));
    assert!(ftps.validate().is_ok());
    let sftp = profile_for(ProtocolKind::Sftp);
    assert_eq!(sftp.port, 22);
    assert!(!sftp.passive_mode);
    assert_eq!(protocol_from_combo_id(Some("ftp")), ProtocolKind::Ftp);
    assert_eq!(protocol_from_combo_id(Some("ftps")), ProtocolKind::Ftps);
    assert_eq!(protocol_from_combo_id(Some("FTP")), ProtocolKind::Sftp);
    assert_eq!(protocol_from_combo_id(None), ProtocolKind::Sftp);
}

#[test]
fn desktop_buttons() {
    match button_command(DesktopButton::Connect, None, Some("ftp")) {
        Ok(UiCommand::Connect { profile }) => assert_eq!(profile.protocol, ProtocolKind::Ftp),
        _ => panic!("expected a connection"),
    }
    assert_eq!(
        button_command(DesktopButton::ListRoot, None, None).err().unwrap(),
        "No active session."
    );
    match button_command(DesktopButton::ListRoot, Some(5), None) {
        Ok(UiCommand::ListDirectory { session_id, path }) => {
            assert_eq!(session_id, 5);
            assert_eq!(path, "/");
        }
        _ => panic!("expected a listing"),
    }
    assert!(matches!(
        button_command(DesktopButton::Disconnect, Some(5), None),
        Ok(UiCommand::Disconnect { session_id: 5 })
    ));
    let connected = UiResponse::Connected {
        session_id: 3,
        protocol: ProtocolKind::Ftp,
        peer: "p".to_owned(),
    };
    assert_eq!(session_after(None, &connected), Some(3));
    assert_eq!(session_after(Some(3), &UiResponse::Disconnected { session_id: 3 }), None);
    assert_eq!(
        session_after(Some(3), &UiResponse::Success { message: "m".to_owned() }),
        Some(3)
    );
}

#[test]
fn connection_list_text() {
    assert_eq!(
        connection_list_lines(&Vec::new()),
        vec!["No saved connections. Press n to create one."]
    );
    let c = saved("box");
    assert_eq!(connection_line(&c), "box [ftp] ftp.example:21");
    assert_eq!(connection_list_lines(&vec![c]), vec!["box [ftp] ftp.example:21"]);
    assert_eq!(protocol_tone(ProtocolKind::Ftp), Tone::Warning);
    assert_eq!(protocol_tone(ProtocolKind::Sftp), Tone::Accent);
}

#[test]
fn connection_details_hide_secrets() {
    let mut c = saved("box");
    c.profile.private_key_pem = Some("PEM".to_owned());
    assert_eq!(
        connection_details(&c),
        "Name: box\nProtocol: ftp\nHost: ftp.example\nPort: 21\nUsername: anon\nPassword: ********\nPrivate key path: -\nPrivate key pem: <provided>\nSecurity: plain_text\nStrict host key checking: false\nPassive mode: true"
    );
    let mut s = TuiState::new(None);
    assert_eq!(selected_details(&s), "Select a connection once one exists.");
    s.connections.push(saved("x"));
    assert!(selected_details(&s).starts_with("Name: x\n"));
    assert_eq!(
        connections_footer("Ready."),
        "Ready. | n:new e:edit x:delete Enter:open j/k or arrows:move q:quit"
    );
}

#[test]
fn form_text() {
    let mut f = ConnectionForm::new_create();
    f.password = "pé".to_owned();
    let lines = form_lines(&f);
    assert_eq!(lines.len(), 13);
    assert_eq!(lines[0], format!("{:25} {}", "Name", ""));
    assert_eq!(lines[1], format!("{:25} {}", "Protocol", "sftp"));
    assert_eq!(lines[3], format!("{:25} {}", "Port", "22"));
    assert_eq!(lines[5], format!("{:25} {}", "Password", "***"));
    assert_eq!(lines[9], format!("{:25} {}", "Strict Host Key Checking", "true"));
    assert_eq!(lines[12], format!("{:25} {}", "Cancel", "Press Enter"));
    assert_eq!(form_title(FormMode::Create), "Create Connection");
    assert_eq!(form_title(FormMode::Edit(2)), "Edit Connection");
    assert_eq!(form_status_line(&f, "ok"), "ok");
    f.error = Some("Host is required.".to_owned());
    assert_eq!(form_status_line(&f, "ok"), "Form error: Host is required.");
    assert_eq!(
        form_footer("ok"),
        "ok | Enter:apply field Space:toggle bool/protocol/security Esc:cancel"
    );
}

#[test]
fn navigator_text() {
    let dir = RemoteEntry {
        name: "docs".to_owned(),
        path: "/docs".to_owned(),
        kind: RemoteEntryKind::Directory,
        size: 4096,
        modified_unix: None,
    };
    let file = RemoteEntry {
        name: "a.txt".to_owned(),
        path: "/a.txt".to_owned(),
        kind: RemoteEntryKind::File,
        size: 1234,
        modified_unix: None,
    };
    assert_eq!(entry_line(&dir), format!("d {:<48} {:>12}", "docs/", "-"));
    assert_eq!(entry_line(&file), format!("- {:<48} {:>12}", "a.txt", "1234"));
    assert_eq!(entry_tone(RemoteEntryKind::Directory), Tone::Directory);
    assert_eq!(entry_tone(RemoteEntryKind::Symlink), Tone::Link);
    assert!(entry_emphasised(&dir, true, "DO"));
    assert!(!entry_emphasised(&dir, true, ""));
    assert!(!entry_emphasised(&dir, false, "do"));
    assert!(!entry_emphasised(&file, true, "a"));
    let mut s = TuiState::new(None);
    s.status = "Ready.".to_owned();
    assert_eq!(navigator_top_line(&s), "path: / | Ready.");
    s.navigator_search = Some(" do ".to_owned());
    assert_eq!(navigator_top_line(&s), "path: / | /do | Ready.");
    assert!(navigator_footer(true).starts_with("/ search"));
    assert!(navigator_footer(false).starts_with("j/k:move"));
    let popup = DownloadPopup { entry: file, local_path: "/home/me/Downloads/a.txt".to_owned() };
    assert_eq!(
        popup_lines(&popup),
        vec![
            "Download selected file to Downloads folder?",
            "",
            "Remote: /a.txt",
            "Local: /home/me/Downloads/a.txt",
            "",
            "y: yes    n: no",
        ]
    );
}

#[test]
fn navigator_rows_and_selection() {
    assert_eq!(ostrich_connect::view::entry_list_lines(&Vec::new()), vec!["No entries"]);
    let e = RemoteEntry {
        name: "x".to_owned(),
        path: "/x".to_owned(),
        kind: RemoteEntryKind::File,
        size: 5,
        modified_unix: None,
    };
    let line = entry_line(&e);
    assert_eq!(ostrich_connect::view::entry_list_lines(&vec![e]), vec![line]);
    assert_eq!(ostrich_connect::view::selected_row(0, 3), None);
    assert_eq!(ostrich_connect::view::selected_row(4, 3), Some(3));
}
