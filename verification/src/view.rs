//! What the terminal frontend shows: the text of each line of the
//! connection list, the details pane, the form, the navigator and the
//! download question. Drawing the lines is the frontend's part.

use vstd::prelude::*;
use vstd::string::*;
use vstd::utf8::encode_utf8;
use crate::form::{push_char, ConnectionForm, FormMode};
use crate::navigator::{is_prefix_match, Tone};
use crate::text::{decimal, decimal_text, starts_with, to_lowercase};
use crate::tui::{concat2, concat3, DownloadPopup, TuiState};
use crate::types::{
    protocol_name, security_label, security_name, RemoteEntry, RemoteEntryKind, SavedConnection,
};

verus! {

/// `n` copies of `c`.
pub open spec fn repeated(c: char, n: nat) -> Seq<char> {
    Seq::new(n, |i: int| c)
}

/// `s` with spaces after it up to `width` characters.
pub open spec fn pad_right(s: Seq<char>, width: nat) -> Seq<char> {
    if s.len() >= width {
        s
    } else {
        s + repeated(' ', (width - s.len()) as nat)
    }
}

/// `s` with spaces before it up to `width` characters.
pub open spec fn pad_left(s: Seq<char>, width: nat) -> Seq<char> {
    if s.len() >= width {
        s
    } else {
        repeated(' ', (width - s.len()) as nat) + s
    }
}

/// `true` or `false`, as a boolean prints.
pub open spec fn bool_text(b: bool) -> Seq<char> {
    if b {
        "true"@
    } else {
        "false"@
    }
}

fn repeat_char(c: char, n: usize) -> (r: String)
    ensures
        r@ == repeated(c, n as nat),
{
    let mut r = String::new();
    let mut i: usize = 0;
    while i < n
        invariant
            i <= n,
            r@ == repeated(c, i as nat),
        decreases n - i,
    {
        push_char(&mut r, c);
        i = i + 1;
        assert(r@ =~= repeated(c, i as nat));
    }
    r
}

fn padded_right(s: &str, width: usize) -> (r: String)
    ensures
        r@ == pad_right(s@, width as nat),
{
    let n = s.unicode_len();
    if n >= width {
        s.to_owned()
    } else {
        concat2(s, repeat_char(' ', width - n).as_str())
    }
}

fn padded_left(s: &str, width: usize) -> (r: String)
    ensures
        r@ == pad_left(s@, width as nat),
{
    let n = s.unicode_len();
    if n >= width {
        s.to_owned()
    } else {
        concat2(repeat_char(' ', width - n).as_str(), s)
    }
}

fn bool_label(b: bool) -> (r: &'static str)
    ensures
        r@ == bool_text(b),
{
    if b {
        "true"
    } else {
        "false"
    }
}

/// A connection's line in the list: `name [protocol] host:port`.
pub open spec fn connection_line_text(c: SavedConnection) -> Seq<char> {
    c.name@ + " ["@ + protocol_name(c.profile.protocol) + "] "@ + c.profile.host@ + ":"@
        + decimal(c.profile.port as nat)
}

/// A connection's line in the list.
pub fn connection_line(c: &SavedConnection) -> (r: String)
    ensures
        r@ == connection_line_text(*c),
{
    let mut r = c.name.clone();
    r.append(" [");
    r.append(c.profile.protocol.label());
    r.append("] ");
    r.append(c.profile.host.as_str());
    r.append(":");
    let port = decimal_text(c.profile.port as u64);
    r.append(port.as_str());
    r
}

/// The lines of the connection list: one per connection, or a hint when
/// there is none.
pub open spec fn connection_list_text(connections: Seq<SavedConnection>) -> Seq<Seq<char>> {
    if connections.len() == 0 {
        seq!["No saved connections. Press n to create one."@]
    } else {
        connections.map_values(|c: SavedConnection| connection_line_text(c))
    }
}

/// The lines of the connection list.
pub fn connection_list_lines(connections: &Vec<SavedConnection>) -> (r: Vec<String>)
    ensures
        r@.map_values(|s: String| s@) == connection_list_text(connections@),
{
    let mut r: Vec<String> = Vec::new();
    if connections.len() == 0 {
        r.push(String::from_str("No saved connections. Press n to create one."));
        assert(r@.map_values(|s: String| s@) =~= connection_list_text(connections@));
        return r;
    }
    let mut i: usize = 0;
    while i < connections.len()
        invariant
            i <= connections@.len(),
            r@.map_values(|s: String| s@) =~= connections@.subrange(0, i as int).map_values(
                |c: SavedConnection| connection_line_text(c),
            ),
        decreases connections.len() - i,
    {
        let ghost before = r@;
        let line = connection_line(&connections[i]);
        r.push(line);
        assert(r@.map_values(|s: String| s@) =~= before.map_values(|s: String| s@).push(
            connection_line_text(connections@[i as int]),
        ));
        assert(connections@.subrange(0, i + 1).map_values(
            |c: SavedConnection| connection_line_text(c),
        ) =~= connections@.subrange(0, i as int).map_values(
            |c: SavedConnection| connection_line_text(c),
        ).push(connection_line_text(connections@[i as int])));
        i = i + 1;
    }
    assert(connections@.subrange(0, i as int) =~= connections@);
    r
}

/// The details pane of a connection; the password shows as eight stars
/// whatever it is, the key as `<provided>`.
pub open spec fn connection_details_text(c: SavedConnection) -> Seq<char> {
    let p = c.profile;
    "Name: "@ + c.name@ + "\nProtocol: "@ + protocol_name(p.protocol) + "\nHost: "@ + p.host@
        + "\nPort: "@ + decimal(p.port as nat) + "\nUsername: "@ + p.username@ + "\nPassword: "@
        + (if p.password is Some {
        repeated('*', 8)
    } else {
        seq![]
    }) + "\nPrivate key path: "@ + (match p.private_key_path {
        Some(k) => k@,
        None => "-"@,
    }) + "\nPrivate key pem: "@ + (if p.private_key_pem is Some {
        "<provided>"@
    } else {
        "-"@
    }) + "\nSecurity: "@ + security_name(p.security) + "\nStrict host key checking: "@
        + bool_text(p.strict_host_key_checking) + "\nPassive mode: "@ + bool_text(p.passive_mode)
}

/// The details pane of a connection.
pub fn connection_details(c: &SavedConnection) -> (r: String)
    ensures
        r@ == connection_details_text(*c),
{
    let p = &c.profile;
    let mut r = String::from_str("Name: ");
    r.append(c.name.as_str());
    r.append("\nProtocol: ");
    r.append(p.protocol.label());
    r.append("\nHost: ");
    r.append(p.host.as_str());
    r.append("\nPort: ");
    let port = decimal_text(p.port as u64);
    r.append(port.as_str());
    r.append("\nUsername: ");
    r.append(p.username.as_str());
    r.append("\nPassword: ");
    let stars = repeat_char('*', if p.password.is_some() { 8 } else { 0 });
    r.append(stars.as_str());
    r.append("\nPrivate key path: ");
    match &p.private_key_path {
        Some(k) => r.append(k.as_str()),
        None => r.append("-"),
    }
    r.append("\nPrivate key pem: ");
    if p.private_key_pem.is_some() {
        r.append("<provided>");
    } else {
        r.append("-");
    }
    r.append("\nSecurity: ");
    r.append(security_label(p.security));
    r.append("\nStrict host key checking: ");
    r.append(bool_label(p.strict_host_key_checking));
    r.append("\nPassive mode: ");
    r.append(bool_label(p.passive_mode));
    assert(repeated('*', 0) =~= Seq::<char>::empty());
    r
}

/// The details pane for the connection under the cursor, or a hint.
pub fn selected_details(state: &TuiState) -> (r: String)
    ensures
        r@ == if state.selected_connection < state.connections@.len() {
            connection_details_text(state.connections@[state.selected_connection as int])
        } else {
            "Select a connection once one exists."@
        },
{
    match state.selected_connection() {
        Some(c) => connection_details(c),
        None => String::from_str("Select a connection once one exists."),
    }
}

/// The key line under the connection list.
pub fn connections_footer(status: &str) -> (r: String)
    ensures
        r@ == status@ + " | n:new e:edit x:delete Enter:open j/k or arrows:move q:quit"@,
{
    concat2(status, " | n:new e:edit x:delete Enter:open j/k or arrows:move q:quit")
}

/// The form's title.
pub fn form_title(mode: FormMode) -> (r: &'static str)
    ensures
        r@ == match mode {
            FormMode::Create => "Create Connection"@,
            FormMode::Edit(_) => "Edit Connection"@,
        },
{
    match mode {
        FormMode::Create => "Create Connection",
        FormMode::Edit(_) => "Edit Connection",
    }
}

/// A line of the form: the label padded to 25 characters, a space, the
/// value.
pub open spec fn form_row(label: Seq<char>, value: Seq<char>) -> Seq<char> {
    pad_right(label, 25) + " "@ + value
}

/// The lines of the form, one per field in order; the password shows as one
/// star per byte of its UTF-8 text, the key as `<provided>` when given.
pub open spec fn form_lines_text(f: ConnectionForm) -> Seq<Seq<char>> {
    seq![
        form_row("Name"@, f.name@),
        form_row("Protocol"@, protocol_name(f.protocol)),
        form_row("Host"@, f.host@),
        form_row("Port"@, f.port@),
        form_row("Username"@, f.username@),
        form_row("Password"@, repeated('*', (encode_utf8(f.password@).len() as usize) as nat)),
        form_row("Private Key Path"@, f.private_key_path@),
        form_row(
            "Private Key PEM"@,
            if f.private_key_pem@.len() == 0 {
                seq![]
            } else {
                "<provided>"@
            },
        ),
        form_row("Security"@, security_name(f.security)),
        form_row("Strict Host Key Checking"@, bool_text(f.strict_host_key_checking)),
        form_row("Passive Mode"@, bool_text(f.passive_mode)),
        form_row("Save"@, "Press Enter"@),
        form_row("Cancel"@, "Press Enter"@),
    ]
}

fn row(label: &str, value: &str) -> (r: String)
    ensures
        r@ == form_row(label@, value@),
{
    concat3(padded_right(label, 25).as_str(), " ", value)
}

/// The lines of the form.
pub fn form_lines(f: &ConnectionForm) -> (r: Vec<String>)
    ensures
        r@.map_values(|s: String| s@) == form_lines_text(*f),
{
    let stars = repeat_char('*', f.password.as_str().len());
    let pem = if f.private_key_pem.as_str().is_empty() {
        String::new()
    } else {
        String::from_str("<provided>")
    };
    let mut r: Vec<String> = Vec::new();
    r.push(row("Name", f.name.as_str()));
    r.push(row("Protocol", f.protocol.label()));
    r.push(row("Host", f.host.as_str()));
    r.push(row("Port", f.port.as_str()));
    r.push(row("Username", f.username.as_str()));
    r.push(row("Password", stars.as_str()));
    r.push(row("Private Key Path", f.private_key_path.as_str()));
    r.push(row("Private Key PEM", pem.as_str()));
    r.push(row("Security", security_label(f.security)));
    r.push(row("Strict Host Key Checking", bool_label(f.strict_host_key_checking)));
    r.push(row("Passive Mode", bool_label(f.passive_mode)));
    r.push(row("Save", "Press Enter"));
    r.push(row("Cancel", "Press Enter"));
    assert(r@.map_values(|s: String| s@) =~= form_lines_text(*f));
    r
}

/// The status line of the form: its error, or the frontend's status.
pub fn form_status_line(f: &ConnectionForm, status: &str) -> (r: String)
    ensures
        r@ == match f.error {
            Some(e) => "Form error: "@ + e@,
            None => status@,
        },
{
    match &f.error {
        Some(e) => concat2("Form error: ", e.as_str()),
        None => status.to_owned(),
    }
}

/// The footer of the form, after its status line.
pub fn form_footer(status_line: &str) -> (r: String)
    ensures
        r@ == status_line@ + " | Enter:apply field Space:toggle bool/protocol/security Esc:cancel"@,
{
    concat2(status_line, " | Enter:apply field Space:toggle bool/protocol/security Esc:cancel")
}

/// The navigator's top line: the path, the search text while searching,
/// the status.
pub open spec fn navigator_top_text(path: Seq<char>, query: Option<Seq<char>>, status: Seq<char>) -> Seq<char> {
    "path: "@ + path + (match query {
        Some(q) => " | /"@ + q,
        None => seq![],
    }) + " | "@ + status
}

/// The navigator's top line.
pub fn navigator_top_line(state: &TuiState) -> (r: String)
    ensures
        r@ == navigator_top_text(
            state.current_path@,
            match state.navigator_search {
                Some(q) => Some(crate::text::trimmed(q@)),
                None => None,
            },
            state.status@,
        ),
{
    let query = state.navigator_search_query();
    let mut r = concat2("path: ", state.current_path.as_str());
    if state.navigator_search.is_some() {
        r.append(" | /");
        r.append(query.as_str());
    }
    r.append(" | ");
    r.append(state.status.as_str());
    r
}

/// The letter of an entry's kind: `d`, `-` or `l`.
pub open spec fn kind_letter(kind: RemoteEntryKind) -> Seq<char> {
    match kind {
        RemoteEntryKind::Directory => "d"@,
        RemoteEntryKind::File => "-"@,
        RemoteEntryKind::Symlink => "l"@,
    }
}

/// An entry's line: its kind letter, its name (a directory's with `/`)
/// padded to 48 characters, its size (`-` for a directory) right-aligned in
/// 12.
pub open spec fn entry_line_text(e: RemoteEntry) -> Seq<char> {
    let is_dir = e.kind == RemoteEntryKind::Directory;
    kind_letter(e.kind) + " "@ + pad_right(
        if is_dir {
            e.name@ + "/"@
        } else {
            e.name@
        },
        48,
    ) + " "@ + pad_left(
        if is_dir {
            "-"@
        } else {
            decimal(e.size as nat)
        },
        12,
    )
}

/// An entry's line in the navigator.
pub fn entry_line(e: &RemoteEntry) -> (r: String)
    ensures
        r@ == entry_line_text(*e),
{
    let is_dir = e.kind == RemoteEntryKind::Directory;
    let kind = match e.kind {
        RemoteEntryKind::Directory => "d",
        RemoteEntryKind::File => "-",
        RemoteEntryKind::Symlink => "l",
    };
    let name = if is_dir {
        concat2(e.name.as_str(), "/")
    } else {
        e.name.clone()
    };
    let size = if is_dir {
        String::from_str("-")
    } else {
        decimal_text(e.size)
    };
    let mut r = concat2(kind, " ");
    r.append(padded_right(name.as_str(), 48).as_str());
    r.append(" ");
    r.append(padded_left(size.as_str(), 12).as_str());
    r
}

/// The lines of the navigator's list: one per entry, or a placeholder when
/// there is none.
pub open spec fn entry_list_text(entries: Seq<RemoteEntry>) -> Seq<Seq<char>> {
    if entries.len() == 0 {
        seq!["No entries"@]
    } else {
        entries.map_values(|e: RemoteEntry| entry_line_text(e))
    }
}

/// The lines of the navigator's list.
pub fn entry_list_lines(entries: &Vec<RemoteEntry>) -> (r: Vec<String>)
    ensures
        r@.map_values(|s: String| s@) == entry_list_text(entries@),
{
    let mut r: Vec<String> = Vec::new();
    if entries.len() == 0 {
        r.push(String::from_str("No entries"));
        assert(r@.map_values(|s: String| s@) =~= entry_list_text(entries@));
        return r;
    }
    let mut i: usize = 0;
    while i < entries.len()
        invariant
            i <= entries@.len(),
            r@.map_values(|s: String| s@) =~= entries@.subrange(0, i as int).map_values(
                |e: RemoteEntry| entry_line_text(e),
            ),
        decreases entries.len() - i,
    {
        let ghost before = r@;
        let line = entry_line(&entries[i]);
        r.push(line);
        assert(r@.map_values(|s: String| s@) =~= before.map_values(|s: String| s@).push(
            entry_line_text(entries@[i as int]),
        ));
        assert(entries@.subrange(0, i + 1).map_values(|e: RemoteEntry| entry_line_text(e))
            =~= entries@.subrange(0, i as int).map_values(|e: RemoteEntry| entry_line_text(e)).push(
            entry_line_text(entries@[i as int]),
        ));
        i = i + 1;
    }
    assert(entries@.subrange(0, i as int) =~= entries@);
    r
}

/// The row a list shows as selected: the cursor's, or none for an empty
/// list.
pub fn selected_row(len: usize, cursor: usize) -> (r: Option<usize>)
    ensures
        r == if len == 0 {
            None
        } else {
            Some(cursor)
        },
{
    if len == 0 {
        None
    } else {
        Some(cursor)
    }
}

/// How an entry's line is coloured: directories and links in their own
/// colours, files plain.
pub fn entry_tone(kind: RemoteEntryKind) -> (r: Tone)
    ensures
        r == match kind {
            RemoteEntryKind::Directory => Tone::Directory,
            RemoteEntryKind::Symlink => Tone::Link,
            RemoteEntryKind::File => Tone::Plain,
        },
{
    match kind {
        RemoteEntryKind::Directory => Tone::Directory,
        RemoteEntryKind::Symlink => Tone::Link,
        RemoteEntryKind::File => Tone::Plain,
    }
}

/// Whether an entry's line is stressed: during a search with text, the
/// directories that the search matches.
pub fn entry_emphasised(e: &RemoteEntry, searching: bool, query: &str) -> (r: bool)
    ensures
        r == (searching && query@.len() > 0 && is_prefix_match(*e, query@)),
{
    if !searching || query.is_empty() || e.kind != RemoteEntryKind::Directory {
        return false;
    }
    let name_lower = to_lowercase(e.name.as_str());
    let query_lower = to_lowercase(query);
    starts_with(name_lower.as_str(), query_lower.as_str())
}

/// The key line under the navigator.
pub fn navigator_footer(searching: bool) -> (r: &'static str)
    ensures
        r@ == if searching {
            "/ search: type prefix | Enter:resolve Esc:cancel Backspace:edit"@
        } else {
            "j/k:move h/l:up/open g/G:top/bottom Ctrl-u/d:jump /:search d:download r:refresh b/q:back"@
        },
{
    if searching {
        "/ search: type prefix | Enter:resolve Esc:cancel Backspace:edit"
    } else {
        "j/k:move h/l:up/open g/G:top/bottom Ctrl-u/d:jump /:search d:download r:refresh b/q:back"
    }
}

/// The lines of the download question.
pub open spec fn popup_lines_text(p: DownloadPopup) -> Seq<Seq<char>> {
    seq![
        "Download selected file to Downloads folder?"@,
        seq![],
        "Remote: "@ + p.entry.path@,
        "Local: "@ + p.local_path@,
        seq![],
        "y: yes    n: no"@,
    ]
}

/// The lines of the download question.
pub fn popup_lines(p: &DownloadPopup) -> (r: Vec<String>)
    ensures
        r@.map_values(|s: String| s@) == popup_lines_text(*p),
{
    let mut r: Vec<String> = Vec::new();
    r.push(String::from_str("Download selected file to Downloads folder?"));
    r.push(String::new());
    r.push(concat2("Remote: ", p.entry.path.as_str()));
    r.push(concat2("Local: ", p.local_path.as_str()));
    r.push(String::new());
    r.push(String::from_str("y: yes    n: no"));
    assert(r@.map_values(|s: String| s@) =~= popup_lines_text(*p));
    r
}

} // verus!
