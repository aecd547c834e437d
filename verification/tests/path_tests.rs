use ostrich_connect::config::{config_path, default_config_root, home_dir};
use ostrich_connect::error::OcError;
use ostrich_connect::navigator;
use ostrich_connect::remote_path::{
    basename, ensure_non_empty, join_remote_path, normalize_remote_path, parent_remote_dir,
    path_join, rfind_char, trim_end_char,
};
use ostrich_connect::sftp::{default_known_hosts_path, expand_tilde, known_host_name};
use ostrich_connect::text::{
    blank, decimal_text, eq_ignore_ascii_case, parse_u16, starts_with, trim,
};

#[test]
fn trim_drops_unicode_white_space() {
    assert_eq!(trim("\u{3000} a b \t\n"), "a b");
    assert_eq!(trim("   "), "");
    assert!(blank(" \u{2003}\r"));
    assert!(!blank(" x "));
}

#[test]
fn decimal_and_parse_round_trip() {
    assert_eq!(decimal_text(0), "0");
    assert_eq!(decimal_text(65535), "65535");
    assert_eq!(decimal_text(18446744073709551615), "18446744073709551615");
    assert_eq!(parse_u16("22"), Some(22));
    assert_eq!(parse_u16("+21"), Some(21));
    assert_eq!(parse_u16("65536"), None);
    assert_eq!(parse_u16(""), None);
    assert_eq!(parse_u16("+"), None);
    assert_eq!(parse_u16("2a"), None);
    assert_eq!(parse_u16("007"), Some(7));
}

#[test]
fn prefixes_and_ascii_case() {
    assert!(starts_with("download", "down"));
    assert!(starts_with("x", ""));
    assert!(!starts_with("do", "down"));
    assert!(eq_ignore_ascii_case("My-SFTP", "my-sftp"));
    assert!(!eq_ignore_ascii_case("straße", "STRASSE"));
    assert!(!eq_ignore_ascii_case("abc", "abcd"));
}

#[test]
fn remote_paths_become_absolute() {
    assert_eq!(normalize_remote_path("  "), "/");
    assert_eq!(normalize_remote_path(" srv/data "), "/srv/data");
    assert_eq!(normalize_remote_path("/srv"), "/srv");
    assert_eq!(normalize_remote_path("."), "/.");
    let once = normalize_remote_path(" a/b ");
    assert_eq!(normalize_remote_path(&once), once);
}

#[test]
fn navigator_paths_become_absolute() {
    assert_eq!(navigator::normalize_remote_path("."), "/");
    assert_eq!(navigator::normalize_remote_path(""), "/");
    assert_eq!(navigator::normalize_remote_path("home/me"), "/home/me");
    let once = navigator::normalize_remote_path(" x ");
    assert_eq!(navigator::normalize_remote_path(&once), once);
}

#[test]
fn going_up_reaches_the_root() {
    assert_eq!(navigator::parent_remote_path("/home/me/docs"), "/home/me");
    assert_eq!(navigator::parent_remote_path("/home/me/"), "/home");
    assert_eq!(navigator::parent_remote_path("/home"), "/");
    assert_eq!(navigator::parent_remote_path("/"), "/");
    assert_eq!(navigator::parent_remote_path("docs"), "/");
    let mut p = "/a/b/c".to_owned();
    let mut steps = 0;
    while p != "/" {
        p = navigator::parent_remote_path(&p);
        steps += 1;
    }
    assert_eq!(steps, 3);
}

#[test]
fn joining_remote_paths() {
    assert_eq!(join_remote_path("/", "a.txt"), "/a.txt");
    assert_eq!(join_remote_path("/srv//", "a.txt"), "/srv/a.txt");
    assert_eq!(join_remote_path("/srv", "a.txt"), "/srv/a.txt");
}

#[test]
fn joining_local_paths() {
    assert_eq!(path_join("/home/me", "Downloads"), "/home/me/Downloads");
    assert_eq!(path_join("/home/me/", "Downloads"), "/home/me/Downloads");
    assert_eq!(path_join("", "x"), "x");
    assert_eq!(path_join("/home/me", "/etc"), "/etc");
}

#[test]
fn trailing_characters_and_last_positions() {
    assert_eq!(trim_end_char("/a/b///", '/'), "/a/b");
    assert_eq!(rfind_char("/a/b", '/'), Some(2));
    assert_eq!(rfind_char("ab", '/'), None);
}

#[test]
fn file_names_of_remote_paths() {
    assert_eq!(basename("dir/report.pdf").unwrap(), "report.pdf");
    assert_eq!(basename("/x/y/").unwrap(), "y");
    match basename("/") {
        Err(OcError::InvalidCommand(m)) => assert_eq!(m, "path must include a file name"),
        _ => panic!("expected an invalid command"),
    }
}

#[test]
fn parent_directories_of_remote_paths() {
    assert_eq!(parent_remote_dir("/srv/data/file.txt"), "/srv/data");
    assert_eq!(parent_remote_dir("file.txt"), "/");
    assert_eq!(parent_remote_dir("/"), "/");
}

#[test]
fn blank_fields_are_refused() {
    match ensure_non_empty("  ", "remote_path") {
        Err(OcError::InvalidCommand(m)) => {
            assert_eq!(m, "remote_path cannot be empty for this operation")
        }
        _ => panic!("expected an invalid command"),
    }
    assert!(ensure_non_empty("x", "remote_path").is_ok());
}

#[test]
fn tilde_expands_to_home() {
    let home = Some("/home/me".to_owned());
    assert_eq!(expand_tilde(" ~ ", &home), "/home/me");
    assert_eq!(expand_tilde("~/.ssh/id_rsa", &home), "/home/me/.ssh/id_rsa");
    assert_eq!(expand_tilde("~/.ssh/id_rsa", &None), "./.ssh/id_rsa");
    assert_eq!(expand_tilde("/keys/id", &home), "/keys/id");
    assert_eq!(expand_tilde("~other/id", &home), "~other/id");
}

#[test]
fn known_hosts_names_and_places() {
    assert_eq!(known_host_name("example.com", 2222), "[example.com]:2222");
    assert_eq!(
        default_known_hosts_path(&Some("/home/me".to_owned())),
        "/home/me/.ssh/known_hosts"
    );
    assert_eq!(default_known_hosts_path(&None), "./.ssh/known_hosts");
}

#[test]
fn config_file_location() {
    let home = Some(" /home/me ".to_owned());
    assert_eq!(home_dir(&home), Some("/home/me".to_owned()));
    assert_eq!(home_dir(&Some("  ".to_owned())), None);
    assert_eq!(default_config_root(&home, false), "/home/me/.config");
    assert_eq!(
        default_config_root(&home, true),
        "/home/me/Library/Application Support"
    );
    assert_eq!(default_config_root(&None, false), ".");
    assert_eq!(
        config_path(&None, &None, &home, false),
        "/home/me/.config/ostrich-connect/config.json"
    );
    assert_eq!(
        config_path(&Some(" /tmp/oc.json ".to_owned()), &None, &home, false),
        "/tmp/oc.json"
    );
    assert_eq!(
        config_path(&Some("  ".to_owned()), &Some("/xdg".to_owned()), &home, true),
        "/xdg/ostrich-connect/config.json"
    );
    assert_eq!(
        config_path(&None, &Some(" ".to_owned()), &home, true),
        "/home/me/Library/Application Support/ostrich-connect/config.json"
    );
}

#[test]
fn downloads_go_to_home() {
    assert_eq!(
        navigator::downloads_target_for("a.txt", &Some("/home/me".to_owned())),
        "/home/me/Downloads/a.txt"
    );
    assert_eq!(navigator::downloads_target_for("a.txt", &None), "./Downloads/a.txt");
}
