//! The state of the terminal frontend and what each key press does to it.
//!
//! Work that needs the backend is handed out as an `Effect`: the frontend
//! runs the command and hands the response back to `on_response`, which may
//! ask for more.

use vstd::prelude::*;
use vstd::string::*;
use crate::command::{SessionId, UiCommand, UiResponse};
use crate::form::{
    drop_last_char, filled_from, form_key_effect, fresh_form, push_char, without_last,
    ConnectionForm, FormAction, FormMode, Key, KeyCode,
};
use crate::navigator::{
    directory_prefix_matches, download_target, downloads_target_for, is_prefix_match,
    lemma_match_positions, match_positions, navigator_path, normalize_remote_path, parent_path, parent_remote_path,
};
use crate::order::{sort_entries, stably_sorted};
use crate::remote_path::{parent_of, path_parent, root, root_path};
use crate::sftp::opt_view;
use crate::text::{decimal, decimal_text, same_text, trim, trimmed};
use crate::types::{protocol_name, RemoteEntry, RemoteEntryKind, SavedConnection};

verus! {

/// A file about to be downloaded, and where it would go.
pub struct DownloadPopup {
    pub entry: RemoteEntry,
    pub local_path: String,
}

/// What the terminal shows.
pub enum Screen {
    Connections,
    Form(ConnectionForm),
    Navigator,
}

/// What a command sent to the backend was for.
pub enum Pending {
    Connect,
    Disconnect,
    List { path: String },
    Download,
}

/// What the frontend is to do after a key press or a response.
pub enum Effect {
    /// Nothing more.
    Idle,
    /// Run `command` and hand the response to `on_response` with `pending`.
    Send { command: UiCommand, pending: Pending },
    /// Create directory `dir` (where there is one), then run `command` and hand
    /// the response to `on_response` with `Pending::Download`; if the directory
    /// cannot be made, hand its error to `download_not_prepared` instead.
    PrepareDownload { dir: Option<String>, command: UiCommand },
}

/// The terminal frontend's state.
pub struct TuiState {
    pub screen: Screen,
    pub should_quit: bool,
    pub status: String,
    pub connections: Vec<SavedConnection>,
    pub selected_connection: usize,
    pub session_id: Option<SessionId>,
    pub current_path: String,
    pub entries: Vec<RemoteEntry>,
    pub selected_entry: usize,
    pub navigator_search: Option<String>,
    pub download_popup: Option<DownloadPopup>,
    pub home: Option<String>,
}

/// The cursor after one step over a list of `len` items, forward or back,
/// wrapping around at both ends (and at the end of the index range).
pub open spec fn cursor_step(sel: usize, len: usize, forward: bool) -> usize {
    if len == 0 {
        0
    } else if forward {
        ((if sel == usize::MAX { 0 } else { sel + 1 }) % (len as int)) as usize
    } else if sel == 0 {
        (len - 1) as usize
    } else {
        (sel - 1) as usize
    }
}

/// The cursor after `times` steps.
pub open spec fn cursor_steps(sel: usize, len: usize, forward: bool, times: nat) -> usize
    decreases times,
{
    if times == 0 {
        sel
    } else {
        cursor_step(cursor_steps(sel, len, forward, (times - 1) as nat), len, forward)
    }
}

fn step_cursor(sel: usize, len: usize, forward: bool) -> (r: usize)
    ensures
        r == cursor_step(sel, len, forward),
{
    if len == 0 {
        0
    } else if forward {
        let next = if sel == usize::MAX {
            0
        } else {
            sel + 1
        };
        next % len
    } else if sel == 0 {
        len - 1
    } else {
        sel - 1
    }
}

/// A text from two parts.
pub fn concat2(a: &str, b: &str) -> (r: String)
    ensures
        r@ == a@ + b@,
{
    let mut r = a.to_owned();
    r.append(b);
    r
}

/// A text from three parts.
pub fn concat3(a: &str, b: &str, c: &str) -> (r: String)
    ensures
        r@ == a@ + b@ + c@,
{
    let mut r = a.to_owned();
    r.append(b);
    r.append(c);
    r
}

/// The message to show for a response that did not fit what was pending.
pub open spec fn unexpected_text(shown: Seq<char>) -> Seq<char> {
    "Unexpected backend response: "@ + shown
}


/// Opening the form on the connection under the cursor: the form filled
/// from it, or a message where there is none.
pub open spec fn edit_form_opened(o: TuiState, n: TuiState) -> bool {
    if o.selected_connection < o.connections@.len() {
        &&& n.screen matches Screen::Form(f) && filled_from(
            f,
            o.selected_connection,
            o.connections@[o.selected_connection as int],
        )
        &&& n == (TuiState { screen: n.screen, ..o })
    } else {
        &&& n.status@ == "No connection selected."@
        &&& n == (TuiState { status: n.status, ..o })
    }
}

/// The connection cursor is on the list, or at the top of an empty list.
pub open spec fn connection_cursor_fits(s: TuiState) -> bool {
    cursor_fits(s.selected_connection, s.connections@.len())
}

/// Deleting the connection under the cursor: the cursor stays on the list; a
/// message where the list is empty.
pub open spec fn connection_deleted(o: TuiState, n: TuiState) -> bool {
    if o.connections@.len() == 0 {
        &&& n.status@ == "No connection to delete."@
        &&& n == (TuiState { status: n.status, ..o })
    } else {
        &&& n.connections@ == o.connections@.remove(o.selected_connection as int)
        &&& n.selected_connection == (if n.connections@.len() == 0 {
            0
        } else if o.selected_connection >= n.connections@.len() {
            (n.connections@.len() - 1) as usize
        } else {
            o.selected_connection
        })
        &&& n.status@ == "Connection deleted."@
        &&& n == (TuiState {
            connections: n.connections,
            selected_connection: n.selected_connection,
            status: n.status,
            ..o
        })
    }
}

/// Opening the download question: for a file under the cursor, the popup
/// with where it would go; a message otherwise.
pub open spec fn popup_opened(o: TuiState, n: TuiState) -> bool {
    if o.selected_entry >= o.entries@.len() {
        &&& n.status@ == "No entry selected."@
        &&& n == (TuiState { status: n.status, ..o })
    } else if o.entries@[o.selected_entry as int].kind == RemoteEntryKind::Directory {
        &&& n.status@ == "Cannot download a directory in this scaffold."@
        &&& n == (TuiState { status: n.status, ..o })
    } else {
        &&& n.download_popup matches Some(p) && p.entry == o.entries@[o.selected_entry as int]
            && p.local_path@ == download_target(p.entry.name@, opt_view(o.home))
        &&& n == (TuiState { download_popup: n.download_popup, ..o })
    }
}

/// A folder search started: an empty query and a hint.
pub open spec fn search_entered(o: TuiState, n: TuiState) -> bool {
    &&& n.navigator_search matches Some(q) && q@.len() == 0
    &&& n.status@ == "Search mode: type a folder prefix, Esc to cancel."@
    &&& n == (TuiState { navigator_search: n.navigator_search, status: n.status, ..o })
}

/// The navigator left for the connection list, its session given up: a
/// request to close the session where there was one.
pub open spec fn disconnected(o: TuiState, e: Effect, n: TuiState) -> bool {
    &&& left_navigator(TuiState { session_id: None, ..o }, n)
    &&& match o.session_id {
        Some(id) => e matches Effect::Send {
            command: UiCommand::Disconnect { session_id },
            pending: Pending::Disconnect,
        } && session_id == id,
        None => e is Idle,
    }
}

/// A request to connect with the profile under the cursor; a message where
/// there is none.
pub open spec fn connect_asked(o: TuiState, e: Effect, n: TuiState) -> bool {
    if o.selected_connection < o.connections@.len() {
        n == o && (e matches Effect::Send {
            command: UiCommand::Connect { profile },
            pending: Pending::Connect,
        } && profile == o.connections@[o.selected_connection as int].profile)
    } else {
        &&& n == (TuiState { status: n.status, ..o })
        &&& n.status@ == "No saved connection. Press n to create one."@
        &&& e is Idle
    }
}

/// A key press handed to the form shown: what the form does with it, then
/// what its action asks (see `form_key_effect` and `form_applied`); nothing
/// where no form is shown.
pub open spec fn form_key_handled(o: TuiState, key: Key, n: TuiState) -> bool {
    match o.screen {
        Screen::Form(f) => exists|form: ConnectionForm, action: FormAction|
            form_key_effect(ConnectionForm { error: None, ..f }, key, form, action)
                && #[trigger] form_applied(o, form, action, n),
        _ => n == o,
    }
}

/// The search with text `q` run over `o`'s entries (matching directories by
/// lowercase prefix of the trimmed text): a hint for nothing typed, a
/// message for no match, into the directory for one match, the cursor on
/// the first match and a count otherwise. The search stays on with text `q`
/// unless the one match is opened.
pub open spec fn searched(o: TuiState, q: Seq<char>, e: Effect, n: TuiState) -> bool {
    let query = trimmed(q);
    let m = match_positions(o.entries@, query);
    if query.len() != 0 && m.len() == 1 {
        entry_opened(TuiState { selected_entry: m[0], navigator_search: None, ..o }, e, n)
    } else {
        &&& e is Idle
        &&& n.navigator_search matches Some(t) && t@ == q
        &&& n == (TuiState {
            navigator_search: n.navigator_search,
            status: n.status,
            selected_entry: if query.len() == 0 || m.len() == 0 {
                o.selected_entry
            } else {
                m[0]
            },
            ..o
        })
        &&& n.status@ == if query.len() == 0 {
            "Search: /"@
        } else if m.len() == 0 {
            "Search '/"@ + query + "': no directory match."@
        } else {
            "Search '/"@ + query + "': "@ + decimal(m.len()) + " matches, keep typing."@
        }
    }
}

/// The search run again on its current text; nothing where no search is
/// on.
pub open spec fn search_updated(o: TuiState, e: Effect, n: TuiState) -> bool {
    match o.navigator_search {
        Some(q) => searched(o, q@, e, n),
        None => n == o && e is Idle,
    }
}

/// `k` is the first position of `entries` that holds a directory picked by
/// the search text `query`.
pub open spec fn first_match_at(entries: Seq<RemoteEntry>, query: Seq<char>, k: int) -> bool {
    &&& 0 <= k < entries.len()
    &&& is_prefix_match(entries[k], query)
    &&& forall|j: int| 0 <= j < k ==> !is_prefix_match(#[trigger] entries[j], query)
}

/// At least two directories of `entries` are picked by the search text
/// `query`.
pub open spec fn several_match(entries: Seq<RemoteEntry>, query: Seq<char>) -> bool {
    exists|a: int, b: int|
        0 <= a < b < entries.len() && is_prefix_match(#[trigger] entries[a], query)
            && is_prefix_match(#[trigger] entries[b], query)
}

/// A key press during a folder search: Esc ends it; Enter runs it again;
/// Backspace erases and runs it; a character without Ctrl or Alt is typed
/// and it runs; anything else does nothing.
pub open spec fn search_key_effect(o: TuiState, key: Key, e: Effect, n: TuiState) -> bool {
    match key.code {
        KeyCode::Esc => {
            &&& n == (TuiState { navigator_search: None, status: n.status, ..o })
            &&& n.status@ == "Search canceled."@
            &&& e is Idle
        },
        KeyCode::Enter => search_updated(o, e, n),
        KeyCode::Backspace => match o.navigator_search {
            Some(q) => searched(o, without_last(q@), e, n),
            None => n == o && e is Idle,
        },
        KeyCode::Char(ch) => if !key.ctrl && !key.alt {
            match o.navigator_search {
                Some(q) => searched(o, q@.push(ch), e, n),
                None => n == o && e is Idle,
            }
        } else {
            n == o && e is Idle
        },
        _ => n == o && e is Idle,
    }
}

/// `o` with the entry cursor at `sel`.
pub open spec fn with_entry_cursor(o: TuiState, sel: usize) -> TuiState {
    TuiState { selected_entry: sel, ..o }
}

/// A key press in the navigator: during a search, see `search_key_effect`;
/// Ctrl-d and Ctrl-u move ten entries; q, b and Esc leave; j/Down and
/// k/Up move one; g and G jump to the ends; h, Backspace and - go up; ~
/// goes to `/`; l and Enter open; r lists again; d asks to download; /
/// starts a search.
pub open spec fn navigator_key_effect(o: TuiState, key: Key, e: Effect, n: TuiState) -> bool {
    let len = o.entries@.len() as usize;
    if o.navigator_search is Some {
        search_key_effect(o, key, e, n)
    } else if key.ctrl && key.code == KeyCode::Char('d') {
        n == with_entry_cursor(o, cursor_steps(o.selected_entry, len, true, 10)) && e is Idle
    } else if key.ctrl && key.code == KeyCode::Char('u') {
        n == with_entry_cursor(o, cursor_steps(o.selected_entry, len, false, 10)) && e is Idle
    } else {
        navigator_plain_key_effect(o, key, e, n)
    }
}

/// A key press in the navigator outside a search and other than Ctrl-d and
/// Ctrl-u: see `navigator_key_effect`.
pub open spec fn navigator_plain_key_effect(o: TuiState, key: Key, e: Effect, n: TuiState) -> bool {
    let len = o.entries@.len() as usize;
    match key.code {
            KeyCode::Char('q') | KeyCode::Char('b') | KeyCode::Esc => disconnected(o, e, n),
            KeyCode::Char('j') | KeyCode::Down => n == with_entry_cursor(
                o,
                cursor_step(o.selected_entry, len, true),
            ) && e is Idle,
            KeyCode::Char('k') | KeyCode::Up => n == with_entry_cursor(
                o,
                cursor_step(o.selected_entry, len, false),
            ) && e is Idle,
            KeyCode::Char('g') => n == with_entry_cursor(
                o,
                if o.entries@.len() > 0 {
                    0
                } else {
                    o.selected_entry
                },
            ) && e is Idle,
            KeyCode::Char('G') => n == with_entry_cursor(
                o,
                if o.entries@.len() > 0 {
                    (o.entries@.len() - 1) as usize
                } else {
                    o.selected_entry
                },
            ) && e is Idle,
            KeyCode::Char('h') | KeyCode::Backspace | KeyCode::Char('-') => n.current_path@
                == parent_path(o.current_path@) && refreshed(at_path(o, n.current_path), e, n),
            KeyCode::Char('~') => n.current_path@ == root() && refreshed(
                at_path(o, n.current_path),
                e,
                n,
            ),
            KeyCode::Char('l') | KeyCode::Enter => entry_opened(o, e, n),
            KeyCode::Char('r') => refreshed(o, e, n),
            KeyCode::Char('d') => popup_opened(o, n) && e is Idle,
            KeyCode::Char('/') => search_entered(o, n) && e is Idle,
            _ => n == o && e is Idle,
    }
}

/// Confirming the download question: the question closes; with a session,
/// the frontend is asked to make the folder the file goes in (what
/// `Path::parent` gives for its path) and then download the file there; a
/// message without one; nothing where no question is open.
pub open spec fn download_confirmed(o: TuiState, e: Effect, n: TuiState) -> bool {
    match o.download_popup {
        None => n == o && e is Idle,
        Some(p) => match o.session_id {
            None => {
                &&& n == (TuiState { download_popup: None, status: n.status, ..o })
                &&& n.status@ == "No active session."@
                &&& e is Idle
            },
            Some(id) => n == (TuiState { download_popup: None, ..o }) && (e matches Effect::PrepareDownload {
                dir,
                command: UiCommand::DownloadFile { session_id, remote_path, local_path },
            } && session_id == id && remote_path == p.entry.path && local_path == p.local_path
                && opt_view(dir) == path_parent(p.local_path@)),
        },
    }
}

/// A key press while the download question is open: y and Enter confirm,
/// n and Esc cancel, anything else does nothing.
pub open spec fn popup_key_effect(o: TuiState, key: Key, e: Effect, n: TuiState) -> bool {
    match key.code {
        KeyCode::Char('y') | KeyCode::Enter => download_confirmed(o, e, n),
        KeyCode::Char('n') | KeyCode::Esc => {
            &&& n == (TuiState { download_popup: None, status: n.status, ..o })
            &&& n.status@ == "Download canceled."@
            &&& e is Idle
        },
        _ => n == o && e is Idle,
    }
}

/// A key press on the connection list: q quits, n opens an empty form, e
/// edits, x and Delete delete, j/Down and k/Up move, Enter connects.
pub open spec fn connections_key_effect(o: TuiState, key: Key, e: Effect, n: TuiState) -> bool {
    let len = o.connections@.len() as usize;
    match key.code {
        KeyCode::Char('q') => n == (TuiState { should_quit: true, ..o }) && e is Idle,
        KeyCode::Char('n') => {
            &&& n.screen matches Screen::Form(f) && fresh_form(f)
            &&& n == (TuiState { screen: n.screen, ..o })
            &&& e is Idle
        },
        KeyCode::Char('e') => edit_form_opened(o, n) && e is Idle,
        KeyCode::Char('x') | KeyCode::Delete => connection_deleted(o, n) && e is Idle,
        KeyCode::Char('j') | KeyCode::Down => n == (TuiState {
            selected_connection: cursor_step(o.selected_connection, len, true),
            ..o
        }) && e is Idle,
        KeyCode::Char('k') | KeyCode::Up => n == (TuiState {
            selected_connection: cursor_step(o.selected_connection, len, false),
            ..o
        }) && e is Idle,
        KeyCode::Enter => connect_asked(o, e, n),
        _ => n == o && e is Idle,
    }
}

/// A key press: to the download question while it is open, else to the
/// screen shown.
pub open spec fn key_effect(o: TuiState, key: Key, e: Effect, n: TuiState) -> bool {
    if o.download_popup is Some {
        popup_key_effect(o, key, e, n)
    } else {
        match o.screen {
            Screen::Connections => connections_key_effect(o, key, e, n),
            Screen::Form(_) => form_key_handled(o, key, n) && e is Idle,
            Screen::Navigator => navigator_key_effect(o, key, e, n),
        }
    }
}


/// `n` is `o` with the status set to `text`.
pub open spec fn status_only(o: TuiState, n: TuiState, text: Seq<char>) -> bool {
    n == (TuiState { status: n.status, ..o }) && n.status@ == text
}

/// What a response does, given what it was for (`shown` is how the
/// frontend prints it):
/// - a connection made opens the navigator at `/` in the new session, says
///   so, and lists `/`; a failed one says why;
/// - a closed session says so, or what went wrong;
/// - a listing replaces the entries, sorted, keeps the cursor on them and
///   counts them; a failed one says why;
/// - a finished download says where it went; a failed one says why;
/// - any other response is shown as unexpected.
pub open spec fn response_applied(
    o: TuiState,
    pending: Pending,
    response: UiResponse,
    shown: Seq<char>,
    e: Effect,
    n: TuiState,
) -> bool {
    match pending {
        Pending::Connect => match response {
            UiResponse::Connected { session_id, protocol, peer } => {
                &&& n.current_path@ == root()
                &&& n.entries@.len() == 0
                &&& n.status@ == "Connected to "@ + peer@ + " via "@ + protocol_name(protocol) + "."@
                &&& n == (TuiState {
                    screen: Screen::Navigator,
                    session_id: Some(session_id),
                    current_path: n.current_path,
                    entries: n.entries,
                    selected_entry: 0,
                    navigator_search: None,
                    download_popup: None,
                    status: n.status,
                    ..o
                })
                &&& refreshed(n, e, n)
            },
            UiResponse::Error { message, .. } => status_only(o, n, "Connection failed: "@ + message@)
                && e is Idle,
            _ => status_only(o, n, unexpected_text(shown)) && e is Idle,
        },
        Pending::Disconnect => e is Idle && match response {
            UiResponse::Error { message, .. } => status_only(o, n, "Disconnect error: "@ + message@),
            _ => status_only(o, n, "Disconnected."@),
        },
        Pending::List { path } => e is Idle && match response {
            UiResponse::Directory { entries, .. } => {
                &&& exists|perm: Seq<int>| stably_sorted(entries@, n.entries@, perm)
                &&& n.selected_entry == (if n.entries@.len() == 0 {
                    0
                } else if o.selected_entry >= n.entries@.len() {
                    (n.entries@.len() - 1) as usize
                } else {
                    o.selected_entry
                })
                &&& n.status@ == decimal(n.entries@.len()) + " entries in "@ + path@
                &&& n == (TuiState {
                    entries: n.entries,
                    selected_entry: n.selected_entry,
                    status: n.status,
                    ..o
                })
            },
            UiResponse::Error { message, .. } => status_only(o, n, "List failed: "@ + message@),
            _ => status_only(o, n, unexpected_text(shown)),
        },
        Pending::Download => e is Idle && match response {
            UiResponse::TransferCompleted { destination, .. } => status_only(
                o,
                n,
                "Downloaded to "@ + destination@,
            ),
            UiResponse::Error { message, .. } => status_only(o, n, "Download failed: "@ + message@),
            _ => status_only(o, n, unexpected_text(shown)),
        },
    }
}

impl TuiState {
    /// The state the frontend starts in: the connection list, empty, with a
    /// hint.
    pub fn new(home: Option<String>) -> (r: TuiState)
        ensures
            r.screen is Connections,
            !r.should_quit,
            r.status@ == "Create a connection with n, then press Enter to open it."@,
            r.connections@.len() == 0,
            r.selected_connection == 0,
            r.session_id is None,
            r.current_path@ == root(),
            r.entries@.len() == 0,
            r.selected_entry == 0,
            r.navigator_search is None,
            r.download_popup is None,
            r.home == home,
    {
        TuiState {
            screen: Screen::Connections,
            should_quit: false,
            status: String::from_str("Create a connection with n, then press Enter to open it."),
            connections: Vec::new(),
            selected_connection: 0,
            session_id: None,
            current_path: root_path(),
            entries: Vec::new(),
            selected_entry: 0,
            navigator_search: None,
            download_popup: None,
            home,
        }
    }

    /// The connection under the cursor, if any.
    pub fn selected_connection(&self) -> (r: Option<&SavedConnection>)
        ensures
            match r {
                Some(c) => self.selected_connection < self.connections@.len() && *c
                    == self.connections@[self.selected_connection as int],
                None => self.selected_connection >= self.connections@.len(),
            },
    {
        if self.selected_connection < self.connections.len() {
            Some(&self.connections[self.selected_connection])
        } else {
            None
        }
    }

    /// The entry under the cursor, if any.
    pub fn selected_entry(&self) -> (r: Option<&RemoteEntry>)
        ensures
            match r {
                Some(e) => self.selected_entry < self.entries@.len() && *e
                    == self.entries@[self.selected_entry as int],
                None => self.selected_entry >= self.entries@.len(),
            },
    {
        if self.selected_entry < self.entries.len() {
            Some(&self.entries[self.selected_entry])
        } else {
            None
        }
    }

    /// Whether the connection cursor is on the list, or at the top of an empty
    /// list, as every key press needs it to be.
    pub fn connection_cursor_on_list(&self) -> (r: bool)
        ensures
            r == connection_cursor_fits(*self),
    {
        if self.connections.len() == 0 {
            self.selected_connection == 0
        } else {
            self.selected_connection < self.connections.len()
        }
    }

    /// Moves the connection cursor one step, forward for a positive
    /// direction, wrapping around.
    pub fn move_connection_cursor(&mut self, direction: isize)
        ensures
            *final(self) == (TuiState {
                selected_connection: cursor_step(
                    old(self).selected_connection,
                    old(self).connections@.len() as usize,
                    direction > 0,
                ),
                ..*old(self)
            }),
    {
        self.selected_connection = step_cursor(
            self.selected_connection,
            self.connections.len(),
            direction > 0,
        );
    }

    /// Moves the entry cursor one step, forward for a positive direction,
    /// wrapping around.
    pub fn move_entry_cursor(&mut self, direction: isize)
        ensures
            *final(self) == (TuiState {
                selected_entry: cursor_step(
                    old(self).selected_entry,
                    old(self).entries@.len() as usize,
                    direction > 0,
                ),
                ..*old(self)
            }),
    {
        self.selected_entry = step_cursor(self.selected_entry, self.entries.len(), direction > 0);
    }

    /// Moves the entry cursor `amount` steps, forward for a positive amount.
    pub fn move_entry_cursor_many(&mut self, amount: isize)
        ensures
            *final(self) == (TuiState {
                selected_entry: cursor_steps(
                    old(self).selected_entry,
                    old(self).entries@.len() as usize,
                    amount > 0,
                    (if amount >= 0 { amount as int } else { -(amount as int) }) as nat,
                ),
                ..*old(self)
            }),
    {
        if amount == 0 {
            return;
        }
        let forward = amount > 0;
        let times: usize = if amount > 0 {
            amount as usize
        } else {
            ((0 - (amount + 1)) as usize) + 1
        };
        let ghost start = self.selected_entry;
        let len = self.entries.len();
        let mut done: usize = 0;
        while done < times
            invariant
                done <= times,
                times as int == (if amount >= 0 { amount as int } else { -(amount as int) }),
                len == self.entries@.len(),
                forward == (amount > 0),
                *self == (TuiState {
                    selected_entry: cursor_steps(start, len, forward, done as nat),
                    ..*old(self)
                }),
            decreases times - done,
        {
            self.selected_entry = step_cursor(self.selected_entry, len, forward);
            done = done + 1;
        }
    }

    /// Puts the entry cursor on the first entry, if there is one.
    pub fn jump_to_first_entry(&mut self)
        ensures
            *final(self) == (TuiState {
                selected_entry: if old(self).entries@.len() > 0 {
                    0
                } else {
                    old(self).selected_entry
                },
                ..*old(self)
            }),
    {
        if self.entries.len() > 0 {
            self.selected_entry = 0;
        }
    }

    /// Puts the entry cursor on the last entry, if there is one.
    pub fn jump_to_last_entry(&mut self)
        ensures
            *final(self) == (TuiState {
                selected_entry: if old(self).entries@.len() > 0 {
                    (old(self).entries@.len() - 1) as usize
                } else {
                    old(self).selected_entry
                },
                ..*old(self)
            }),
    {
        if self.entries.len() > 0 {
            self.selected_entry = self.entries.len() - 1;
        }
    }

    /// The search query, trimmed; empty when no search is on.
    pub fn navigator_search_query(&self) -> (r: String)
        ensures
            r@ == match self.navigator_search {
                Some(q) => trimmed(q@),
                None => seq![],
            },
    {
        match &self.navigator_search {
            Some(q) => trim(q.as_str()),
            None => String::new(),
        }
    }

    /// Starts a folder search.
    pub fn enter_search_mode(&mut self)
        ensures
            search_entered(*old(self), *final(self)),
    {
        self.navigator_search = Some(String::new());
        self.status = String::from_str("Search mode: type a folder prefix, Esc to cancel.");
    }

    /// Ends a folder search with a message.
    pub fn stop_search_mode(&mut self, message: &str)
        ensures
            final(self).navigator_search is None,
            final(self).status@ == message@,
            *final(self) == (TuiState {
                navigator_search: None,
                status: final(self).status,
                ..*old(self)
            }),
    {
        self.navigator_search = None;
        self.status = message.to_owned();
    }

    /// Opens the form on the connection under the cursor.
    pub fn open_edit_form(&mut self)
        ensures
            edit_form_opened(*old(self), *final(self)),
    {
        if self.selected_connection >= self.connections.len() {
            self.status = String::from_str("No connection selected.");
            return;
        }
        let connection = self.connections[self.selected_connection].duplicate();
        let index = self.selected_connection;
        self.screen = Screen::Form(ConnectionForm::from_existing(index, connection));
    }

    /// Deletes the connection under the cursor and keeps the cursor on the
    /// list.
    pub fn delete_selected_connection(&mut self)
        requires
            connection_cursor_fits(*old(self)),
        ensures
            connection_deleted(*old(self), *final(self)),
    {
        if self.connections.len() == 0 {
            self.status = String::from_str("No connection to delete.");
            return;
        }
        self.connections.remove(self.selected_connection);
        if self.selected_connection >= self.connections.len() && self.connections.len() > 0 {
            self.selected_connection = self.connections.len() - 1;
        }
        if self.connections.len() == 0 {
            self.selected_connection = 0;
        }
        self.status = String::from_str("Connection deleted.");
    }

    /// Opens the download question for the file under the cursor: where it
    /// would go is `Downloads/<name>` in the home directory.
    pub fn open_download_popup(&mut self)
        ensures
            popup_opened(*old(self), *final(self)),
    {
        if self.selected_entry >= self.entries.len() {
            self.status = String::from_str("No entry selected.");
            return;
        }
        let entry = self.entries[self.selected_entry].duplicate();
        if entry.kind == RemoteEntryKind::Directory {
            self.status = String::from_str("Cannot download a directory in this scaffold.");
            return;
        }
        let local_path = downloads_target_for(entry.name.as_str(), &self.home);
        self.download_popup = Some(DownloadPopup { entry, local_path });
    }
}


/// `e` asks for a listing of `s`'s current directory in its session and
/// the state stays `s`; with no session the state gets a message and
/// nothing is asked.
pub open spec fn refreshed(s: TuiState, e: Effect, n: TuiState) -> bool {
    match s.session_id {
        Some(id) => n == s && (e matches Effect::Send {
            command: UiCommand::ListDirectory { session_id, path },
            pending: Pending::List { path: p },
        } && session_id == id && path == s.current_path && p == s.current_path),
        None => n == (TuiState { status: n.status, ..s }) && n.status@ == "No active session."@
            && e is Idle,
    }
}

/// `s` with the navigator reset for `path`: the cursor on top.
pub open spec fn at_path(s: TuiState, path: String) -> TuiState {
    TuiState { current_path: path, selected_entry: 0, ..s }
}

/// What opening the entry under the cursor does: a message where there is
/// none or it is no directory, else the navigator moves into it (its path
/// made absolute) and lists it.
pub open spec fn entry_opened(o: TuiState, e: Effect, n: TuiState) -> bool {
    if o.selected_entry >= o.entries@.len() {
        n == (TuiState { status: n.status, ..o }) && n.status@ == "No entry selected."@ && e is Idle
    } else if o.entries@[o.selected_entry as int].kind != RemoteEntryKind::Directory {
        n == (TuiState { status: n.status, ..o }) && n.status@
            == "Selected entry is not a directory."@ && e is Idle
    } else {
        n.current_path@ == navigator_path(o.entries@[o.selected_entry as int].path@) && refreshed(
            at_path(o, n.current_path),
            e,
            n,
        )
    }
}

/// The state after the navigator is left: the connection list, the path
/// back at `/`, no entries, search or pending download.
pub open spec fn left_navigator(s: TuiState, n: TuiState) -> bool {
    &&& n.current_path@ == root()
    &&& n == (TuiState {
        screen: Screen::Connections,
        current_path: n.current_path,
        entries: n.entries,
        selected_entry: 0,
        navigator_search: None,
        download_popup: None,
        ..s
    })
    &&& n.entries@.len() == 0
}

/// What the form's action does to the screen around it: Stay keeps the form
/// (as `form` now is); Cancel goes back to the list with a message; a saved
/// connection is added (Create, or Edit of a position past the list) or put
/// in place (Edit), the cursor put on it, and the list shown; a refused one
/// keeps the form with the message as its error.
pub open spec fn form_applied(o: TuiState, form: ConnectionForm, action: FormAction, n: TuiState) -> bool {
    match action {
        FormAction::Stay => n == (TuiState { screen: Screen::Form(form), ..o }),
        FormAction::Cancel => n == (TuiState { screen: Screen::Connections, status: n.status, ..o })
            && n.status@ == "Connection edit canceled."@,
        FormAction::Save { mode, connection } => match connection {
            Err(message) => n == (TuiState {
                screen: Screen::Form(ConnectionForm { error: Some(message), ..form }),
                ..o
            }),
            Ok(c) => {
                let replaces = match mode {
                    FormMode::Edit(i) => i < o.connections@.len(),
                    FormMode::Create => false,
                };
                &&& n == (TuiState {
                    screen: Screen::Connections,
                    connections: n.connections,
                    selected_connection: n.selected_connection,
                    status: n.status,
                    ..o
                })
                &&& if replaces {
                    let i = match mode {
                        FormMode::Edit(i) => i,
                        FormMode::Create => 0,
                    };
                    &&& n.connections@ == o.connections@.update(i as int, c)
                    &&& n.selected_connection == i
                    &&& n.status@ == "Connection updated."@
                } else {
                    &&& n.connections@ == o.connections@.push(c)
                    &&& n.selected_connection == o.connections@.len()
                    &&& n.status@ == "Connection created."@
                }
            },
        },
    }
}

impl TuiState {
    /// Asks for a listing of the current directory.
    pub fn refresh_directory(&mut self) -> (e: Effect)
        ensures
            refreshed(*old(self), e, *final(self)),
    {
        match self.session_id {
            None => {
                self.status = String::from_str("No active session.");
                Effect::Idle
            },
            Some(id) => {
                let path = self.current_path.clone();
                let listed = self.current_path.clone();
                Effect::Send {
                    command: UiCommand::ListDirectory { session_id: id, path },
                    pending: Pending::List { path: listed },
                }
            },
        }
    }

    /// Opens the entry under the cursor, if it is a directory.
    pub fn open_selected_entry(&mut self) -> (e: Effect)
        ensures
            entry_opened(*old(self), e, *final(self)),
    {
        if self.selected_entry >= self.entries.len() {
            self.status = String::from_str("No entry selected.");
            return Effect::Idle;
        }
        if self.entries[self.selected_entry].kind != RemoteEntryKind::Directory {
            self.status = String::from_str("Selected entry is not a directory.");
            return Effect::Idle;
        }
        let path = normalize_remote_path(self.entries[self.selected_entry].path.as_str());
        self.current_path = path;
        self.selected_entry = 0;
        self.refresh_directory()
    }

    /// Asks to connect to the connection under the cursor.
    pub fn connect_selected(&mut self) -> (e: Effect)
        ensures
            connect_asked(*old(self), e, *final(self)),
    {
        if self.selected_connection >= self.connections.len() {
            self.status = String::from_str("No saved connection. Press n to create one.");
            return Effect::Idle;
        }
        let profile = self.connections[self.selected_connection].profile.duplicate();
        Effect::Send { command: UiCommand::Connect { profile }, pending: Pending::Connect }
    }

    /// Leaves the navigator for the connection list, asking to close the
    /// session if there is one.
    pub fn disconnect_to_connections(&mut self) -> (e: Effect)
        ensures
            disconnected(*old(self), e, *final(self)),
    {
        let session = self.session_id;
        self.session_id = None;
        self.screen = Screen::Connections;
        self.current_path = root_path();
        self.entries = Vec::new();
        self.selected_entry = 0;
        self.navigator_search = None;
        self.download_popup = None;
        match session {
            Some(id) => Effect::Send {
                command: UiCommand::Disconnect { session_id: id },
                pending: Pending::Disconnect,
            },
            None => Effect::Idle,
        }
    }

    /// Applies what a key press in the form asked: see `form_applied`.
    pub fn apply_form_action(&mut self, form: ConnectionForm, action: FormAction)
        ensures
            form_applied(*old(self), form, action, *final(self)),
    {
        match action {
            FormAction::Stay => {
                self.screen = Screen::Form(form);
            },
            FormAction::Cancel => {
                self.screen = Screen::Connections;
                self.status = String::from_str("Connection edit canceled.");
            },
            FormAction::Save { mode, connection } => match connection {
                Err(message) => {
                    let mut form = form;
                    form.error = Some(message);
                    self.screen = Screen::Form(form);
                },
                Ok(c) => {
                    let replace_at = match mode {
                        FormMode::Edit(i) => if i < self.connections.len() {
                            Some(i)
                        } else {
                            None
                        },
                        FormMode::Create => None,
                    };
                    match replace_at {
                        Some(i) => {
                            self.connections.set(i, c);
                            self.selected_connection = i;
                            self.status = String::from_str("Connection updated.");
                        },
                        None => {
                            self.connections.push(c);
                            self.selected_connection = self.connections.len() - 1;
                            self.status = String::from_str("Connection created.");
                        },
                    }
                    self.screen = Screen::Connections;
                },
            },
        }
    }

    /// Hands a key press to the form, when the form is shown, and applies
    /// what it asks.
    pub fn handle_form_key(&mut self, key: Key)
        ensures
            form_key_handled(*old(self), key, *final(self)),
    {
        let mut screen = Screen::Connections;
        std::mem::swap(&mut screen, &mut self.screen);
        match screen {
            Screen::Form(form) => {
                let mut form = form;
                let action = form.handle_key(key);
                let ghost edited_form = form;
                let ghost mid = *self;
                self.apply_form_action(form, action);
                assert(mid == (TuiState { screen: Screen::Connections, ..*old(self) }));
                assert(form_applied(*old(self), edited_form, action, *self));
            },
            other => {
                self.screen = other;
            },
        }
    }
}


impl TuiState {
    /// Runs the folder search again on its current text.
    pub fn update_search(&mut self) -> (e: Effect)
        ensures
            search_updated(*old(self), e, *final(self)),
            match old(self).navigator_search {
                Some(q) => trimmed(q@).len() > 0 && several_match(old(self).entries@, trimmed(q@))
                    ==> first_match_at(
                    old(self).entries@,
                    trimmed(q@),
                    final(self).selected_entry as int,
                ),
                None => true,
            },
    {
        let ghost o = *self;
        if self.navigator_search.is_none() {
            return Effect::Idle;
        }
        let ghost q = self.navigator_search->0@;
        let query = self.navigator_search_query();
        if query.as_str().is_empty() {
            self.status = String::from_str("Search: /");
            return Effect::Idle;
        }
        let matches = directory_prefix_matches(&self.entries, query.as_str());
        proof {
            assert(self.entries@.len() == self.entries.len());
            lemma_match_positions(self.entries@, query@);
            if several_match(self.entries@, query@) {
                lemma_several_matches_listed(self.entries@, query@);
            }
            if matches@.len() > 0 {
                lemma_first_listed_match(self.entries@, query@);
            }
        }
        if matches.len() == 0 {
            self.status = concat3("Search '/", query.as_str(), "': no directory match.");
            Effect::Idle
        } else if matches.len() == 1 {
            self.selected_entry = matches[0];
            self.navigator_search = None;
            self.open_selected_entry()
        } else {
            self.selected_entry = matches[0];
            let count = decimal_text(matches.len() as u64);
            let mut status = concat3("Search '/", query.as_str(), "': ");
            status.append(count.as_str());
            status.append(" matches, keep typing.");
            self.status = status;
            Effect::Idle
        }
    }

    /// Handles a key press during a folder search.
    pub fn handle_navigator_search_key(&mut self, key: Key) -> (e: Effect)
        ensures
            search_key_effect(*old(self), key, e, *final(self)),
    {
        match key.code {
            KeyCode::Esc => {
                self.stop_search_mode("Search canceled.");
                Effect::Idle
            },
            KeyCode::Enter => self.update_search(),
            KeyCode::Backspace => {
                match &self.navigator_search {
                    Some(q) => {
                        let shorter = drop_last_char(q);
                        self.navigator_search = Some(shorter);
                    },
                    None => {},
                }
                self.update_search()
            },
            KeyCode::Char(ch) => {
                if key.ctrl || key.alt {
                    return Effect::Idle;
                }
                let mut search = None;
                std::mem::swap(&mut search, &mut self.navigator_search);
                match search {
                    Some(q) => {
                        let mut q = q;
                        push_char(&mut q, ch);
                        self.navigator_search = Some(q);
                    },
                    None => {},
                }
                self.update_search()
            },
            _ => Effect::Idle,
        }
    }

    /// Handles a key press in the navigator.
    pub fn handle_navigator_key(&mut self, key: Key) -> (e: Effect)
        ensures
            navigator_key_effect(*old(self), key, e, *final(self)),
    {
        if self.navigator_search.is_some() {
            return self.handle_navigator_search_key(key);
        }
        if key.ctrl {
            match key.code {
                KeyCode::Char('d') => {
                    self.move_entry_cursor_many(10);
                    return Effect::Idle;
                },
                KeyCode::Char('u') => {
                    self.move_entry_cursor_many(-10);
                    return Effect::Idle;
                },
                _ => {},
            }
        }
        self.handle_navigator_plain_key(key)
    }

    /// Handles a key press in the navigator outside a search, other than
    /// Ctrl-d and Ctrl-u.
    pub fn handle_navigator_plain_key(&mut self, key: Key) -> (e: Effect)
        ensures
            navigator_plain_key_effect(*old(self), key, e, *final(self)),
    {
        match key.code {
            KeyCode::Char('q') | KeyCode::Char('b') | KeyCode::Esc => {
                self.disconnect_to_connections()
            },
            KeyCode::Char('j') | KeyCode::Down => {
                self.move_entry_cursor(1);
                Effect::Idle
            },
            KeyCode::Char('k') | KeyCode::Up => {
                self.move_entry_cursor(-1);
                Effect::Idle
            },
            KeyCode::Char('g') => {
                self.jump_to_first_entry();
                Effect::Idle
            },
            KeyCode::Char('G') => {
                self.jump_to_last_entry();
                Effect::Idle
            },
            KeyCode::Char('h') | KeyCode::Backspace | KeyCode::Char('-') => {
                self.current_path = parent_remote_path(self.current_path.as_str());
                self.selected_entry = 0;
                self.refresh_directory()
            },
            KeyCode::Char('~') => {
                self.current_path = root_path();
                self.selected_entry = 0;
                self.refresh_directory()
            },
            KeyCode::Char('l') | KeyCode::Enter => self.open_selected_entry(),
            KeyCode::Char('r') => self.refresh_directory(),
            KeyCode::Char('d') => {
                self.open_download_popup();
                Effect::Idle
            },
            KeyCode::Char('/') => {
                self.enter_search_mode();
                Effect::Idle
            },
            _ => Effect::Idle,
        }
    }

    /// Confirms the download question.
    pub fn confirm_download(&mut self) -> (e: Effect)
        ensures
            download_confirmed(*old(self), e, *final(self)),
    {
        let mut popup = None;
        std::mem::swap(&mut popup, &mut self.download_popup);
        let popup = match popup {
            Some(p) => p,
            None => {
                return Effect::Idle;
            },
        };
        let session_id = match self.session_id {
            Some(id) => id,
            None => {
                self.status = String::from_str("No active session.");
                return Effect::Idle;
            },
        };
        let dir = parent_of(popup.local_path.as_str());
        let DownloadPopup { entry, local_path } = popup;
        Effect::PrepareDownload {
            dir,
            command: UiCommand::DownloadFile { session_id, remote_path: entry.path, local_path },
        }
    }

    /// The folder a download goes in could not be made: says so with the
    /// error's text.
    pub fn download_not_prepared(&mut self, error: &str)
        ensures
            final(self).status@ == "Could not prepare Downloads folder: "@ + error@,
            *final(self) == (TuiState { status: final(self).status, ..*old(self) }),
    {
        let mut status = String::from_str("Could not prepare Downloads folder: ");
        status.append(error);
        self.status = status;
    }

    /// Handles a key press while the download question is open.
    pub fn handle_download_popup_key(&mut self, key: Key) -> (e: Effect)
        ensures
            popup_key_effect(*old(self), key, e, *final(self)),
    {
        match key.code {
            KeyCode::Char('y') | KeyCode::Enter => self.confirm_download(),
            KeyCode::Char('n') | KeyCode::Esc => {
                self.download_popup = None;
                self.status = String::from_str("Download canceled.");
                Effect::Idle
            },
            _ => Effect::Idle,
        }
    }

    /// Handles a key press on the connection list.
    pub fn handle_connections_key(&mut self, key: Key) -> (e: Effect)
        requires
            connection_cursor_fits(*old(self)),
        ensures
            connections_key_effect(*old(self), key, e, *final(self)),
    {
        match key.code {
            KeyCode::Char('q') => {
                self.should_quit = true;
                Effect::Idle
            },
            KeyCode::Char('n') => {
                self.screen = Screen::Form(ConnectionForm::new_create());
                Effect::Idle
            },
            KeyCode::Char('e') => {
                self.open_edit_form();
                Effect::Idle
            },
            KeyCode::Char('x') | KeyCode::Delete => {
                self.delete_selected_connection();
                Effect::Idle
            },
            KeyCode::Char('j') | KeyCode::Down => {
                self.move_connection_cursor(1);
                Effect::Idle
            },
            KeyCode::Char('k') | KeyCode::Up => {
                self.move_connection_cursor(-1);
                Effect::Idle
            },
            KeyCode::Enter => self.connect_selected(),
            _ => Effect::Idle,
        }
    }

    /// Handles a key press: see `key_effect`.
    pub fn handle_key(&mut self, key: Key) -> (e: Effect)
        requires
            connection_cursor_fits(*old(self)),
        ensures
            key_effect(*old(self), key, e, *final(self)),
    {
        if self.download_popup.is_some() {
            return self.handle_download_popup_key(key);
        }
        match self.screen {
            Screen::Connections => self.handle_connections_key(key),
            Screen::Form(_) => {
                self.handle_form_key(key);
                Effect::Idle
            },
            Screen::Navigator => self.handle_navigator_key(key),
        }
    }

    /// Handles a key press as the frontend reads it: Ctrl-c quits from
    /// anywhere; everything else goes to `handle_key`.
    pub fn on_key_press(&mut self, key: Key) -> (e: Effect)
        requires
            connection_cursor_fits(*old(self)),
        ensures
            if key.code == KeyCode::Char('c') && key.ctrl {
                *final(self) == (TuiState { should_quit: true, ..*old(self) }) && e is Idle
            } else {
                key_effect(*old(self), key, e, *final(self))
            },
    {
        if key.code == KeyCode::Char('c') && key.ctrl {
            self.should_quit = true;
            return Effect::Idle;
        }
        self.handle_key(key)
    }
}


/// The frontend started on a saved connection by name: with the saved
/// connections loaded, the cursor goes to the first one of that name and a
/// connection to it is asked for; a message where none has that name, or
/// where the connections could not be loaded.
pub open spec fn auto_connected(
    o: TuiState,
    loaded: Result<Vec<SavedConnection>, String>,
    name: Seq<char>,
    e: Effect,
    n: TuiState,
) -> bool {
    match loaded {
        Err(m) => status_only(o, n, m@) && e is Idle,
        Ok(cs) => {
            &&& n.connections@ == cs@
            &&& if exists|i: int| 0 <= i < cs@.len() && (#[trigger] cs@[i]).name@ == name {
                &&& n.selected_connection < cs@.len()
                &&& cs@[n.selected_connection as int].name@ == name
                &&& forall|j: int| 0 <= j < n.selected_connection ==> (#[trigger] cs@[j]).name@ != name
                &&& n == (TuiState {
                    connections: n.connections,
                    selected_connection: n.selected_connection,
                    ..o
                })
                &&& e matches Effect::Send { command: UiCommand::Connect { profile }, pending: Pending::Connect }
                    && profile == cs@[n.selected_connection as int].profile
            } else {
                &&& n == (TuiState {
                    connections: n.connections,
                    selected_connection: 0,
                    status: n.status,
                    ..o
                })
                &&& n.status@ == "No saved connection named '"@ + name + "'."@
                &&& e is Idle
            }
        },
    }
}

impl TuiState {
    /// Starts on a saved connection by name, given what loading the saved
    /// connections gave: see `auto_connected`.
    pub fn auto_connect(&mut self, loaded: Result<Vec<SavedConnection>, String>, name: &str) -> (e:
        Effect)
        ensures
            auto_connected(*old(self), loaded, name@, e, *final(self)),
    {
        match loaded {
            Err(m) => {
                self.status = m;
                Effect::Idle
            },
            Ok(cs) => {
                let mut i: usize = 0;
                while i < cs.len() && !same_text(cs[i].name.as_str(), name)
                    invariant
                        i <= cs@.len(),
                        forall|j: int| 0 <= j < i ==> (#[trigger] cs@[j]).name@ != name@,
                    decreases cs.len() - i,
                {
                    i = i + 1;
                }
                let found = i < cs.len();
                self.connections = cs;
                if found {
                    self.selected_connection = i;
                    self.connect_selected()
                } else {
                    self.selected_connection = 0;
                    self.status = concat3("No saved connection named '", name, "'.");
                    Effect::Idle
                }
            },
        }
    }
}

impl TuiState {
    /// Takes the backend's response to what was pending: see
    /// `response_applied`.
    pub fn on_response(&mut self, pending: Pending, response: UiResponse, shown: &str) -> (e: Effect)
        ensures
            response_applied(*old(self), pending, response, shown@, e, *final(self)),
    {
        match pending {
            Pending::Connect => match response {
                UiResponse::Connected { session_id, protocol, peer } => {
                    self.session_id = Some(session_id);
                    self.current_path = root_path();
                    self.entries = Vec::new();
                    self.selected_entry = 0;
                    self.navigator_search = None;
                    self.download_popup = None;
                    self.screen = Screen::Navigator;
                    let mut status = concat3("Connected to ", peer.as_str(), " via ");
                    status.append(protocol.label());
                    status.append(".");
                    self.status = status;
                    self.refresh_directory()
                },
                UiResponse::Error { message, .. } => {
                    self.status = concat2("Connection failed: ", message.as_str());
                    Effect::Idle
                },
                _ => {
                    self.status = concat2("Unexpected backend response: ", shown);
                    Effect::Idle
                },
            },
            Pending::Disconnect => {
                match response {
                    UiResponse::Error { message, .. } => {
                        self.status = concat2("Disconnect error: ", message.as_str());
                    },
                    _ => {
                        self.status = String::from_str("Disconnected.");
                    },
                }
                Effect::Idle
            },
            Pending::List { path } => {
                match response {
                    UiResponse::Directory { entries, .. } => {
                        let mut entries = entries;
                        sort_entries(&mut entries);
                        let count = entries.len();
                        self.entries = entries;
                        if self.selected_entry >= count && count > 0 {
                            self.selected_entry = count - 1;
                        }
                        if count == 0 {
                            self.selected_entry = 0;
                        }
                        let mut status = decimal_text(count as u64);
                        status.append(" entries in ");
                        status.append(path.as_str());
                        self.status = status;
                    },
                    UiResponse::Error { message, .. } => {
                        self.status = concat2("List failed: ", message.as_str());
                    },
                    _ => {
                        self.status = concat2("Unexpected backend response: ", shown);
                    },
                }
                Effect::Idle
            },
            Pending::Download => {
                match response {
                    UiResponse::TransferCompleted { destination, .. } => {
                        self.status = concat2("Downloaded to ", destination.as_str());
                    },
                    UiResponse::Error { message, .. } => {
                        self.status = concat2("Download failed: ", message.as_str());
                    },
                    _ => {
                        self.status = concat2("Unexpected backend response: ", shown);
                    },
                }
                Effect::Idle
            },
        }
    }
}

/// A cursor on a list of `len` items stays on it after a step either way,
/// and a step back undoes a step forward (and the other way round).
pub proof fn lemma_cursor_step_on_list(sel: usize, len: usize, forward: bool)
    requires
        sel < len,
    ensures
        cursor_step(sel, len, forward) < len,
        cursor_step(cursor_step(sel, len, forward), len, !forward) == sel,
{
    let l = len as nat;
    if forward {
        if sel + 1 < len {
            vstd::arithmetic::div_mod::lemma_small_mod((sel + 1) as nat, l);
        } else {
            vstd::arithmetic::div_mod::lemma_mod_self_0(len as int);
        }
    } else {
        if sel == 0 {
            vstd::arithmetic::div_mod::lemma_mod_self_0(len as int);
        } else {
            vstd::arithmetic::div_mod::lemma_small_mod(sel as nat, l);
        }
    }
}

/// A cursor on a list stays on it after any number of steps.
pub proof fn lemma_cursor_steps_on_list(sel: usize, len: usize, forward: bool, times: nat)
    requires
        sel < len,
    ensures
        cursor_steps(sel, len, forward, times) < len,
    decreases times,
{
    if times > 0 {
        lemma_cursor_steps_on_list(sel, len, forward, (times - 1) as nat);
        lemma_cursor_step_on_list(cursor_steps(sel, len, forward, (times - 1) as nat), len, forward);
    }
}

/// The cursor of a list of `len` items is on it, or at the top of an empty
/// list.
pub open spec fn cursor_fits(sel: usize, len: nat) -> bool {
    if len == 0 {
        sel == 0
    } else {
        sel < len
    }
}

/// Both cursors of the frontend fit their lists.
pub open spec fn cursors_fit(s: TuiState) -> bool {
    connection_cursor_fits(s) && cursor_fits(s.selected_entry, s.entries@.len())
}

proof fn lemma_cursor_step_fits(sel: usize, len: nat, forward: bool)
    requires
        cursor_fits(sel, len),
        len <= usize::MAX,
    ensures
        cursor_fits(cursor_step(sel, len as usize, forward), len),
        forall|times: nat| cursor_fits(#[trigger] cursor_steps(sel, len as usize, forward, times), len),
{
    if len > 0 {
        lemma_cursor_step_on_list(sel, len as usize, forward);
        assert forall|times: nat| cursor_fits(
            #[trigger] cursor_steps(sel, len as usize, forward, times),
            len,
        ) by {
            lemma_cursor_steps_on_list(sel, len as usize, forward, times);
        }
    } else {
        assert forall|times: nat| cursor_fits(
            #[trigger] cursor_steps(sel, len as usize, forward, times),
            len,
        ) by {
            lemma_cursor_steps_at_empty(sel, forward, times);
        }
    }
}

proof fn lemma_cursor_steps_at_empty(sel: usize, forward: bool, times: nat)
    requires
        sel == 0,
    ensures
        cursor_steps(sel, 0, forward, times) == 0,
    decreases times,
{
    if times > 0 {
        lemma_cursor_steps_at_empty(sel, forward, (times - 1) as nat);
    }
}

proof fn lemma_opened_entry_fits(o: TuiState, e: Effect, n: TuiState)
    requires
        cursors_fit(o),
        entry_opened(o, e, n),
    ensures
        cursors_fit(n),
{
}

proof fn lemma_search_fits(o: TuiState, q: Seq<char>, e: Effect, n: TuiState)
    requires
        cursors_fit(o),
        searched(o, q, e, n),
        o.entries@.len() <= usize::MAX,
    ensures
        cursors_fit(n),
{
    let query = trimmed(q);
    let m = match_positions(o.entries@, query);
    lemma_match_positions(o.entries@, query);
    if query.len() != 0 && m.len() == 1 {
        assert((m[0] as int) < o.entries@.len());
        lemma_opened_entry_fits(TuiState { selected_entry: m[0], navigator_search: None, ..o }, e, n);
    } else if query.len() != 0 && m.len() > 0 {
        assert((m[0] as int) < o.entries@.len());
    }
}

/// The first position that the search lists is the first matching
/// directory.
proof fn lemma_first_listed_match(entries: Seq<RemoteEntry>, query: Seq<char>)
    requires
        entries.len() <= usize::MAX,
        match_positions(entries, query).len() > 0,
    ensures
        first_match_at(entries, query, match_positions(entries, query)[0] as int),
{
    let m = match_positions(entries, query);
    lemma_match_positions(entries, query);
    let k = m[0] as int;
    assert((m[0] as int) < entries.len());
    assert(k as usize == m[0]);
    assert(m.contains(k as usize));
    assert(is_prefix_match(entries[k], query));
    assert forall|j: int| 0 <= j < k implies !is_prefix_match(#[trigger] entries[j], query) by {
        if is_prefix_match(entries[j], query) {
            assert(m.contains(j as usize));
            let i = choose|i: int| 0 <= i < m.len() && m[i] == j as usize;
            if i > 0 {
                assert(m[0] < m[i]);
            }
        }
    }
}

/// Where two directories match, the search lists at least two positions.
proof fn lemma_several_matches_listed(entries: Seq<RemoteEntry>, query: Seq<char>)
    requires
        entries.len() <= usize::MAX,
        several_match(entries, query),
    ensures
        match_positions(entries, query).len() >= 2,
{
    let m = match_positions(entries, query);
    lemma_match_positions(entries, query);
    let (a, b) = choose|a: int, b: int|
        0 <= a < b < entries.len() && is_prefix_match(#[trigger] entries[a], query)
            && is_prefix_match(#[trigger] entries[b], query);
    assert(is_prefix_match(entries[a], query));
    assert(is_prefix_match(entries[b], query));
    assert(m.contains(a as usize));
    assert(m.contains(b as usize));
    let ia = choose|i: int| 0 <= i < m.len() && m[i] == a as usize;
    let ib = choose|i: int| 0 <= i < m.len() && m[i] == b as usize;
    assert(ia != ib);
}

/// A search whose text picks two directories or more puts the cursor on the
/// first of them, keeps the search on with the same text, and asks for
/// nothing.
pub proof fn lemma_search_picks_first_match(o: TuiState, q: Seq<char>, e: Effect, n: TuiState)
    requires
        searched(o, q, e, n),
        o.entries@.len() <= usize::MAX,
        trimmed(q).len() > 0,
        several_match(o.entries@, trimmed(q)),
    ensures
        first_match_at(o.entries@, trimmed(q), n.selected_entry as int),
        e is Idle,
        n.navigator_search matches Some(t) && t@ == q,
{
    lemma_several_matches_listed(o.entries@, trimmed(q));
    lemma_first_listed_match(o.entries@, trimmed(q));
}

/// A search whose text picks exactly one directory ends the search and
/// opens that directory, as if the cursor were on it.
pub proof fn lemma_search_opens_only_match(
    o: TuiState,
    q: Seq<char>,
    e: Effect,
    n: TuiState,
    k: int,
)
    requires
        searched(o, q, e, n),
        o.entries@.len() <= usize::MAX,
        trimmed(q).len() > 0,
        0 <= k < o.entries@.len(),
        is_prefix_match(o.entries@[k], trimmed(q)),
        forall|j: int|
            0 <= j < o.entries@.len() && j != k ==> !is_prefix_match(
                #[trigger] o.entries@[j],
                trimmed(q),
            ),
    ensures
        entry_opened(TuiState { selected_entry: k as usize, navigator_search: None, ..o }, e, n),
{
    let query = trimmed(q);
    let m = match_positions(o.entries@, query);
    lemma_match_positions(o.entries@, query);
    assert(m.contains(k as usize));
    let i = choose|i: int| 0 <= i < m.len() && m[i] == k as usize;
    assert forall|x: int| 0 <= x < m.len() implies m[x] == k as usize by {
        let p = m[x] as int;
        assert(p < o.entries@.len());
        assert(p as usize == m[x]);
        assert(m.contains(p as usize));
        assert(is_prefix_match(o.entries@[p], query));
    }
    if m.len() > 1 {
        assert(m[0] < m[1]);
    }
    assert(m.len() == 1);
}

/// A search whose text is blank, or picks no directory, leaves the cursor
/// and the listing where they were, keeps the search on with the same text,
/// and asks for nothing.
pub proof fn lemma_search_without_match_stays(o: TuiState, q: Seq<char>, e: Effect, n: TuiState)
    requires
        searched(o, q, e, n),
        o.entries@.len() <= usize::MAX,
        trimmed(q).len() == 0 || forall|j: int|
            0 <= j < o.entries@.len() ==> !is_prefix_match(#[trigger] o.entries@[j], trimmed(q)),
    ensures
        n.selected_entry == o.selected_entry,
        n.entries == o.entries,
        n.current_path == o.current_path,
        e is Idle,
        n.navigator_search matches Some(t) && t@ == q,
{
    let query = trimmed(q);
    let m = match_positions(o.entries@, query);
    lemma_match_positions(o.entries@, query);
    if query.len() > 0 && m.len() > 0 {
        let p = m[0] as int;
        assert(p < o.entries@.len());
        assert(p as usize == m[0]);
        assert(m.contains(p as usize));
        assert(is_prefix_match(o.entries@[p], query));
    }
}

/// Every key press keeps both cursors on their lists (or at the top of an
/// empty list).
pub proof fn lemma_key_keeps_cursors(o: TuiState, key: Key, e: Effect, n: TuiState)
    requires
        cursors_fit(o),
        o.connections@.len() <= usize::MAX,
        o.entries@.len() <= usize::MAX,
        key_effect(o, key, e, n),
    ensures
        cursors_fit(n),
{
    lemma_cursor_step_fits(o.selected_connection, o.connections@.len(), true);
    lemma_cursor_step_fits(o.selected_connection, o.connections@.len(), false);
    lemma_cursor_step_fits(o.selected_entry, o.entries@.len(), true);
    lemma_cursor_step_fits(o.selected_entry, o.entries@.len(), false);
    assert(cursor_fits(cursor_steps(o.selected_entry, o.entries@.len() as usize, true, 10), o.entries@.len()));
    assert(cursor_fits(cursor_steps(o.selected_entry, o.entries@.len() as usize, false, 10), o.entries@.len()));
    if o.download_popup is None {
        match o.screen {
            Screen::Form(f) => {
                let (form, action) = choose|form: ConnectionForm, action: FormAction|
                    form_key_effect(ConnectionForm { error: None, ..f }, key, form, action)
                        && #[trigger] form_applied(o, form, action, n);
                assert(form_applied(o, form, action, n));
            },
            Screen::Navigator => {
                if o.navigator_search is Some {
                    let q = o.navigator_search->0@;
                    match key.code {
                        KeyCode::Enter => lemma_search_fits(o, q, e, n),
                        KeyCode::Backspace => lemma_search_fits(o, without_last(q), e, n),
                        KeyCode::Char(ch) => if !key.ctrl && !key.alt {
                            lemma_search_fits(o, q.push(ch), e, n);
                        },
                        _ => {},
                    }
                } else {
                    match key.code {
                        KeyCode::Char('l') | KeyCode::Enter => lemma_opened_entry_fits(o, e, n),
                        _ => {},
                    }
                }
            },
            Screen::Connections => {},
        }
    }
}

/// Every response keeps both cursors on their lists (or at the top of an
/// empty list).
pub proof fn lemma_response_keeps_cursors(
    o: TuiState,
    pending: Pending,
    response: UiResponse,
    shown: Seq<char>,
    e: Effect,
    n: TuiState,
)
    requires
        cursors_fit(o),
        response_applied(o, pending, response, shown, e, n),
    ensures
        cursors_fit(n),
{
}

} // verus!
