//! The SFTP adapter's decisions: which profiles it accepts, how it
//! authenticates, how it treats the server's host key, what each operation
//! asks of the server, and how it reads a directory listing. The SSH work
//! itself is done by the frontend with an SSH client.

use vstd::prelude::*;
use vstd::string::*;
use crate::error::OcError;
use crate::remote_path::{
    empty_field_text, ensure_non_empty, file_name_of, normalize_remote_path, normalized_remote,
    path_file_name, path_join, path_joined,
};
use crate::text::{
    blank, decimal, decimal_text, has_prefix, is_blank, same_text, starts_with, trim, trimmed,
};
use crate::types::{
    problem_text, profile_problem, socket_address, ConnectionProfile, ConnectionSecurity,
    ProtocolKind, RemoteEntry, RemoteEntryKind,
};

verus! {

/// Opens SFTP sessions.
pub struct SftpProtocolFactory;

/// One way of logging in, in the order they are tried.
pub enum AuthAttempt {
    /// A private key given inline, with the password as its passphrase.
    PrivateKeyPem { key: String, passphrase: Option<String> },
    /// A private key read from a file, with the password as its passphrase.
    PrivateKeyFile { path: String, passphrase: Option<String> },
    /// The password.
    Password { password: String },
}

/// What connecting to an SSH server takes.
pub struct SftpConnectPlan {
    pub host: String,
    pub port: u16,
    pub username: String,
    pub peer: String,
    pub strict_host_key_checking: bool,
    pub known_host_name: String,
    pub auth: Vec<AuthAttempt>,
}

/// The directory that stands for a home directory that cannot be found.
pub open spec fn current_dir() -> Seq<char> {
    seq!['.']
}

/// The home directory, or `.` where there is none.
pub open spec fn home_or_current(home: Option<Seq<char>>) -> Seq<char> {
    match home {
        Some(h) => h,
        None => current_dir(),
    }
}

/// A key path with `~` expanded: `~` alone is the home directory, `~/rest`
/// is `rest` inside it, and any other path stays (without surrounding white
/// space).
pub open spec fn expanded_path(path: Seq<char>, home: Option<Seq<char>>) -> Seq<char> {
    let t = trimmed(path);
    if t == seq!['~'] {
        home_or_current(home)
    } else if has_prefix(t, seq!['~', '/']) {
        path_joined(home_or_current(home), t.subrange(2, t.len() as int))
    } else {
        t
    }
}

/// The view of an optional text.
pub open spec fn opt_view(s: Option<String>) -> Option<Seq<char>> {
    match s {
        Some(t) => Some(t@),
        None => None,
    }
}

fn home_or_dot(home: &Option<String>) -> (r: String)
    ensures
        r@ == home_or_current(opt_view(*home)),
{
    match home {
        Some(h) => h.clone(),
        None => {
            proof {
                reveal_strlit(".");
                assert("."@ =~= seq!['.']);
            }
            String::from_str(".")
        },
    }
}

/// Expands `~` in a key path, given the home directory.
pub fn expand_tilde(path: &str, home: &Option<String>) -> (r: String)
    ensures
        r@ == expanded_path(path@, opt_view(*home)),
{
    let t = trim(path);
    proof {
        reveal_strlit("~");
        reveal_strlit("~/");
        assert("~"@ =~= seq!['~']);
        assert("~/"@ =~= seq!['~', '/']);
    }
    if same_text(t.as_str(), "~") {
        return home_or_dot(home);
    }
    if starts_with(t.as_str(), "~/") {
        let n = t.as_str().unicode_len();
        let rest = t.as_str().substring_char(2, n);
        let base = home_or_dot(home);
        return path_join(base.as_str(), rest);
    }
    t
}

/// The ways of logging in that a profile allows, in the order they are
/// tried: an inline private key, then a key file (when its path is not
/// blank), then the password; a password serves as the keys' passphrase.
pub open spec fn auth_plan_ok(p: ConnectionProfile, home: Option<Seq<char>>, auth: Seq<AuthAttempt>) -> bool {
    let pem = match p.private_key_pem {
        Some(key) => seq![AuthAttempt::PrivateKeyPem { key, passphrase: p.password }],
        None => seq![],
    };
    let file_ok = p.private_key_path matches Some(path) && !is_blank(path@);
    let pass = match p.password {
        Some(password) => seq![AuthAttempt::Password { password }],
        None => seq![],
    };
    &&& auth.len() == pem.len() + (if file_ok { 1int } else { 0 }) + pass.len()
    &&& auth.subrange(0, pem.len() as int) == pem
    &&& file_ok ==> (auth[pem.len() as int] matches AuthAttempt::PrivateKeyFile { path, passphrase }
        && passphrase == p.password && path@ == expanded_path(p.private_key_path->0@, home))
    &&& auth.subrange(auth.len() - pass.len(), auth.len() as int) == pass
}

/// The text of the `InvalidProfile` error that the SFTP adapter refuses a
/// profile with, if it refuses it.
pub open spec fn sftp_refusal(p: ConnectionProfile) -> Option<Seq<char>> {
    match profile_problem(p) {
        Some(problem) => Some(problem_text(problem)),
        None => if p.protocol != ProtocolKind::Sftp {
            Some("SFTP factory received a non-SFTP profile"@)
        } else {
            None
        },
    }
}

/// The name under which a server's key is added to `known_hosts`:
/// `[host]:port`.
pub open spec fn known_host_entry(host: Seq<char>, port: u16) -> Seq<char> {
    seq!['['] + host + seq![']', ':'] + decimal(port as nat)
}

fn copy_opt(s: &Option<String>) -> (r: Option<String>)
    ensures
        r == *s,
{
    match s {
        Some(t) => Some(t.clone()),
        None => None,
    }
}

impl SftpProtocolFactory {
    /// The SFTP factory.
    pub fn new() -> (r: SftpProtocolFactory) {
        SftpProtocolFactory
    }

    /// The protocol this factory opens.
    pub fn kind(&self) -> (r: ProtocolKind)
        ensures
            r == ProtocolKind::Sftp,
    {
        ProtocolKind::Sftp
    }

    /// The protocol's display name.
    pub fn display_name(&self) -> (r: &'static str)
        ensures
            r@ == "SFTP"@,
    {
        "SFTP"
    }

    /// Checks a profile for SFTP and says how to connect: to `host` and
    /// `port` as `username`, checking the host key strictly or not as the
    /// profile says, and logging in by the attempts `auth_plan_ok` lists. A
    /// profile that breaks a rule of `validate`, or is not an SFTP profile, is
    /// refused with `InvalidProfile`.
    pub fn plan_connect(&self, profile: &ConnectionProfile, home: &Option<String>) -> (r: Result<
        SftpConnectPlan,
        OcError,
    >)
        ensures
            match sftp_refusal(*profile) {
                Some(text) => r matches Err(OcError::InvalidProfile(m)) && m@ == text,
                None => r matches Ok(plan) && {
                    &&& plan.host == profile.host
                    &&& plan.port == profile.port
                    &&& plan.username == profile.username
                    &&& plan.peer@ == socket_address(*profile)
                    &&& plan.strict_host_key_checking == profile.strict_host_key_checking
                    &&& plan.known_host_name@ == known_host_entry(profile.host@, profile.port)
                    &&& auth_plan_ok(*profile, opt_view(*home), plan.auth@)
                },
            },
    {
        match profile.validate() {
            Err(e) => {
                return Err(e);
            },
            Ok(()) => {},
        }
        if profile.protocol != ProtocolKind::Sftp {
            return Err(
                OcError::InvalidProfile(
                    String::from_str("SFTP factory received a non-SFTP profile"),
                ),
            );
        }
        if profile.security != ConnectionSecurity::SshTransport {
            return Err(
                OcError::InvalidProfile(String::from_str("SFTP requires ssh_transport security")),
            );
        }
        let auth = auth_attempts(profile, home);
        Ok(
            SftpConnectPlan {
                host: profile.host.clone(),
                port: profile.port,
                username: profile.username.clone(),
                peer: profile.socket_addr(),
                strict_host_key_checking: profile.strict_host_key_checking,
                known_host_name: known_host_name(profile.host.as_str(), profile.port),
                auth,
            },
        )
    }
}

/// The name `[host]:port` under which a server's key is remembered.
pub fn known_host_name(host: &str, port: u16) -> (r: String)
    ensures
        r@ == known_host_entry(host@, port),
{
    proof {
        reveal_strlit("[");
        reveal_strlit("]:");
    }
    let mut r = String::from_str("[");
    r.append(host);
    r.append("]:");
    let digits = decimal_text(port as u64);
    r.append(digits.as_str());
    r
}

/// The ways of logging in that a profile allows, in the order they are tried.
pub fn auth_attempts(profile: &ConnectionProfile, home: &Option<String>) -> (r: Vec<AuthAttempt>)
    ensures
        auth_plan_ok(*profile, opt_view(*home), r@),
        forall|i: int|
            0 <= i < r@.len() ==> match #[trigger] r@[i] {
                AuthAttempt::PrivateKeyPem { key, passphrase } => profile.private_key_pem == Some(
                    key,
                ) && passphrase == profile.password,
                AuthAttempt::PrivateKeyFile { passphrase, .. } => passphrase == profile.password,
                AuthAttempt::Password { password } => profile.password == Some(password),
            },
{
    let mut r: Vec<AuthAttempt> = Vec::new();
    match &profile.private_key_pem {
        Some(key) => {
            r.push(
                AuthAttempt::PrivateKeyPem { key: key.clone(), passphrase: copy_opt(&profile.password) },
            );
        },
        None => {},
    }
    let ghost pem_len = r@.len();
    match &profile.private_key_path {
        Some(path) => {
            if !blank(path.as_str()) {
                r.push(
                    AuthAttempt::PrivateKeyFile {
                        path: expand_tilde(path.as_str(), home),
                        passphrase: copy_opt(&profile.password),
                    },
                );
            }
        },
        None => {},
    }
    let ghost before_pass = r@;
    match &profile.password {
        Some(password) => {
            r.push(AuthAttempt::Password { password: password.clone() });
        },
        None => {},
    }
    assert(r@.subrange(0, pem_len as int) =~= before_pass.subrange(0, pem_len as int));
    assert(r@.subrange(0, pem_len as int) =~= (match profile.private_key_pem {
        Some(key) => seq![AuthAttempt::PrivateKeyPem { key, passphrase: profile.password }],
        None => seq![],
    }));
    assert(r@.subrange(r@.len() - (if profile.password is Some { 1int } else { 0 }), r@.len() as int)
        =~= (match profile.password {
        Some(password) => seq![AuthAttempt::Password { password }],
        None => seq![],
    }));
    proof {
        lemma_keys_unlocked_by_password(*profile, opt_view(*home), r@);
    }
    r
}

/// In every plan of login attempts, each private key (inline or read from a
/// file) is tried with the profile's password as its passphrase, an inline
/// key is the profile's own, and a password attempt uses the profile's
/// password.
pub proof fn lemma_keys_unlocked_by_password(
    p: ConnectionProfile,
    home: Option<Seq<char>>,
    auth: Seq<AuthAttempt>,
)
    requires
        auth_plan_ok(p, home, auth),
    ensures
        forall|i: int|
            0 <= i < auth.len() ==> match #[trigger] auth[i] {
                AuthAttempt::PrivateKeyPem { key, passphrase } => p.private_key_pem == Some(key)
                    && passphrase == p.password,
                AuthAttempt::PrivateKeyFile { passphrase, .. } => passphrase == p.password,
                AuthAttempt::Password { password } => p.password == Some(password),
            },
{
    let pem_len: int = if p.private_key_pem is Some { 1 } else { 0 };
    let file_ok = p.private_key_path matches Some(path) && !is_blank(path@);
    let pass_len: int = if p.password is Some { 1 } else { 0 };
    assert forall|i: int| 0 <= i < auth.len() implies match #[trigger] auth[i] {
        AuthAttempt::PrivateKeyPem { key, passphrase } => p.private_key_pem == Some(key)
            && passphrase == p.password,
        AuthAttempt::PrivateKeyFile { passphrase, .. } => passphrase == p.password,
        AuthAttempt::Password { password } => p.password == Some(password),
    } by {
        if i < pem_len {
            assert(auth[i] == auth.subrange(0, pem_len)[i]);
        } else if file_ok && i == pem_len {
        } else {
            let start = auth.len() - pass_len;
            assert(i >= start);
            assert(auth[i] == auth.subrange(start, auth.len() as int)[i - start]);
        }
    }
}

/// The note that a failed login attempt leaves, given the client's error.
pub open spec fn failure_note(attempt: AuthAttempt, err: Seq<char>) -> Seq<char> {
    match attempt {
        AuthAttempt::PrivateKeyPem { .. } => "private_key_pem auth failed: "@ + err,
        AuthAttempt::PrivateKeyFile { path, .. } => "private_key_path auth failed ("@ + path@
            + "): "@ + err,
        AuthAttempt::Password { .. } => "password auth failed: "@ + err,
    }
}

/// The note that a failed login attempt leaves.
pub fn auth_failure_note(attempt: &AuthAttempt, err: &str) -> (r: String)
    ensures
        r@ == failure_note(*attempt, err@),
{
    match attempt {
        AuthAttempt::PrivateKeyPem { .. } => {
            let mut r = String::from_str("private_key_pem auth failed: ");
            r.append(err);
            r
        },
        AuthAttempt::PrivateKeyFile { path, .. } => {
            let mut r = String::from_str("private_key_path auth failed (");
            r.append(path.as_str());
            r.append("): ");
            r.append(err);
            r
        },
        AuthAttempt::Password { .. } => {
            let mut r = String::from_str("password auth failed: ");
            r.append(err);
            r
        },
    }
}

/// The texts of `parts` joined by `sep`, as `[String]::join` joins them.
pub open spec fn joined_with(parts: Seq<Seq<char>>, sep: Seq<char>) -> Seq<char>
    decreases parts.len(),
{
    if parts.len() == 0 {
        seq![]
    } else if parts.len() == 1 {
        parts[0]
    } else {
        joined_with(parts.drop_last(), sep) + sep + parts.last()
    }
}

/// The views of a list of texts.
pub open spec fn texts(v: Seq<String>) -> Seq<Seq<char>> {
    v.map_values(|s: String| s@)
}

/// The texts of `parts` joined by `sep`.
pub fn join_texts(parts: &Vec<String>, sep: &str) -> (r: String)
    ensures
        r@ == joined_with(texts(parts@), sep@),
{
    let mut r = String::new();
    let mut i: usize = 0;
    while i < parts.len()
        invariant
            i <= parts@.len(),
            r@ == joined_with(texts(parts@.subrange(0, i as int)), sep@),
        decreases parts.len() - i,
    {
        let ghost prev = texts(parts@.subrange(0, i as int));
        let ghost next = texts(parts@.subrange(0, i + 1));
        assert(next.drop_last() =~= prev);
        assert(next.last() == parts@[i as int]@);
        if i > 0 {
            r.append(sep);
        }
        r.append(parts[i].as_str());
        i = i + 1;
    }
    assert(parts@.subrange(0, i as int) =~= parts@);
    r
}

/// The error of a login that no attempt got through: `Authentication` when
/// nothing was tried, else a connection error that lists the notes the
/// attempts left.
pub fn auth_error(notes: &Vec<String>) -> (r: OcError)
    ensures
        if notes@.len() == 0 {
            r is Authentication
        } else {
            r matches OcError::Connection(m) && m@ == "authentication failed: "@ + joined_with(
                texts(notes@),
                " | "@,
            )
        },
{
    if notes.len() == 0 {
        OcError::Authentication
    } else {
        let mut m = String::from_str("authentication failed: ");
        let list = join_texts(notes, " | ");
        m.append(list.as_str());
        OcError::Connection(m)
    }
}

/// Some attempt got through.
pub open spec fn some_login_passed(results: Seq<Result<(), String>>) -> bool {
    exists|i: int| 0 <= i < results.len() && (#[trigger] results[i]) is Ok
}

/// The attempt to try next, given the outcomes of those tried so far (in
/// order): none once one got through or all were tried, else the next one.
pub open spec fn attempt_after(attempts: Seq<AuthAttempt>, results: Seq<Result<(), String>>) -> Option<
    int,
> {
    if some_login_passed(results) || results.len() >= attempts.len() {
        None
    } else {
        Some(results.len() as int)
    }
}

/// The notes that the failed attempts leave, in the order they were tried.
pub open spec fn failure_notes(attempts: Seq<AuthAttempt>, results: Seq<Result<(), String>>) -> Seq<
    Seq<char>,
> {
    Seq::new(
        if results.len() <= attempts.len() {
            results.len()
        } else {
            attempts.len()
        },
        |i: int|
            match results[i] {
                Err(e) => failure_note(attempts[i], e@),
                Ok(_) => seq![],
            },
    )
}

/// The attempt to try next, given the outcomes of those tried so far.
pub fn next_attempt(attempts: &Vec<AuthAttempt>, results: &Vec<Result<(), String>>) -> (r: Option<
    usize,
>)
    ensures
        match r {
            Some(i) => attempt_after(attempts@, results@) == Some(i as int),
            None => attempt_after(attempts@, results@) is None,
        },
{
    let mut i: usize = 0;
    while i < results.len()
        invariant
            i <= results@.len(),
            forall|k: int| 0 <= k < i ==> (#[trigger] results@[k]) is Err,
        decreases results.len() - i,
    {
        if results[i].is_ok() {
            return None;
        }
        i = i + 1;
    }
    if results.len() < attempts.len() {
        Some(results.len())
    } else {
        None
    }
}

/// How a login ends, given the outcomes of the attempts tried (in order):
/// well where one got through, else with `auth_error` of the notes the
/// failed ones left.
pub fn login_outcome(attempts: &Vec<AuthAttempt>, results: &Vec<Result<(), String>>) -> (r: Result<
    (),
    OcError,
>)
    ensures
        if some_login_passed(results@) {
            r is Ok
        } else {
            let notes = failure_notes(attempts@, results@);
            if notes.len() == 0 {
                r matches Err(OcError::Authentication)
            } else {
                r matches Err(OcError::Connection(m)) && m@ == "authentication failed: "@
                    + joined_with(notes, " | "@)
            }
        },
{
    let mut i: usize = 0;
    while i < results.len()
        invariant
            i <= results@.len(),
            forall|k: int| 0 <= k < i ==> (#[trigger] results@[k]) is Err,
        decreases results.len() - i,
    {
        if results[i].is_ok() {
            return Ok(());
        }
        i = i + 1;
    }
    assert(!some_login_passed(results@));
    let n = if results.len() <= attempts.len() {
        results.len()
    } else {
        attempts.len()
    };
    let mut notes: Vec<String> = Vec::new();
    let mut k: usize = 0;
    while k < n
        invariant
            k <= n,
            n <= results@.len(),
            n <= attempts@.len(),
            n == failure_notes(attempts@, results@).len(),
            forall|j: int| 0 <= j < results@.len() ==> (#[trigger] results@[j]) is Err,
            texts(notes@) =~= failure_notes(attempts@, results@).subrange(0, k as int),
        decreases n - k,
    {
        let note = match &results[k] {
            Err(e) => auth_failure_note(&attempts[k], e.as_str()),
            Ok(_) => String::new(),
        };
        let ghost before = notes@;
        notes.push(note);
        assert(texts(notes@) =~= texts(before).push(failure_notes(attempts@, results@)[k as int]));
        k = k + 1;
    }
    assert(texts(notes@) =~= failure_notes(attempts@, results@));
    Err(auth_error(&notes))
}

/// What the SSH client's known-hosts check found for the server's key.
#[derive(Debug, Clone, Copy, PartialEq, Eq, Structural)]
pub enum HostKeyCheck {
    Match,
    Mismatch,
    NotFound,
    Failure,
}

/// What to do about the server's key.
pub enum HostKeyDecision {
    /// Go on.
    Accept,
    /// Remember the key in `known_hosts`, then go on.
    Remember,
    /// Stop with this error.
    Reject(OcError),
}

/// What to do about the server's key: a known key goes on, a changed key
/// stops, an unknown key stops under strict checking and is remembered
/// otherwise, and a failed check stops only under strict checking.
pub fn host_key_decision(check: HostKeyCheck, strict: bool, known_hosts_path: &str) -> (r: HostKeyDecision)
    ensures
        match check {
            HostKeyCheck::Match => r is Accept,
            HostKeyCheck::Mismatch => r matches HostKeyDecision::Reject(OcError::Connection(m))
                && m@ == "host key mismatch (possible MITM)"@,
            HostKeyCheck::NotFound => if strict {
                r matches HostKeyDecision::Reject(OcError::Connection(m)) && m@
                    == "host key not found in "@ + known_hosts_path@
            } else {
                r is Remember
            },
            HostKeyCheck::Failure => if strict {
                r matches HostKeyDecision::Reject(OcError::Connection(m)) && m@
                    == "host key check failed"@
            } else {
                r is Accept
            },
        },
{
    match check {
        HostKeyCheck::Match => HostKeyDecision::Accept,
        HostKeyCheck::Mismatch => HostKeyDecision::Reject(
            OcError::Connection(String::from_str("host key mismatch (possible MITM)")),
        ),
        HostKeyCheck::NotFound => {
            if strict {
                let mut m = String::from_str("host key not found in ");
                m.append(known_hosts_path);
                HostKeyDecision::Reject(OcError::Connection(m))
            } else {
                HostKeyDecision::Remember
            }
        },
        HostKeyCheck::Failure => {
            if strict {
                HostKeyDecision::Reject(OcError::Connection(String::from_str("host key check failed")))
            } else {
                HostKeyDecision::Accept
            }
        },
    }
}

/// Where the known hosts are kept: `.ssh/known_hosts` in the home
/// directory, or in `.` where there is none.
pub open spec fn known_hosts_location(home: Option<Seq<char>>) -> Seq<char> {
    path_joined(path_joined(home_or_current(home), ".ssh"@), "known_hosts"@)
}

/// Where the known hosts are kept.
pub fn default_known_hosts_path(home: &Option<String>) -> (r: String)
    ensures
        r@ == known_hosts_location(opt_view(*home)),
{
    let base = home_or_dot(home);
    let ssh = path_join(base.as_str(), ".ssh");
    path_join(ssh.as_str(), "known_hosts")
}

/// What an SFTP session remembers besides its connection: the peer.
pub struct SftpSession {
    pub peer: String,
}

/// The kinds of file that the SSH client reports.
#[derive(Debug, Clone, Copy, PartialEq, Eq, Structural)]
pub enum SftpFileType {
    Directory,
    Symlink,
    Other,
}

/// `e` is the entry for a directory item with the given path, name, type,
/// size and modification time: the size 0 where there is none, the time as a
/// signed number.
pub open spec fn is_sftp_entry(
    e: RemoteEntry,
    path: Seq<char>,
    name: Seq<char>,
    file_type: SftpFileType,
    size: Option<u64>,
    mtime: Option<u64>,
) -> bool {
    &&& e.name@ == name
    &&& e.path@ == path
    &&& e.kind == match file_type {
        SftpFileType::Directory => RemoteEntryKind::Directory,
        SftpFileType::Symlink => RemoteEntryKind::Symlink,
        SftpFileType::Other => RemoteEntryKind::File,
    }
    &&& e.size == match size {
        Some(s) => s,
        None => 0,
    }
    &&& e.modified_unix == match mtime {
        Some(t) => Some(t as i64),
        None => None,
    }
}

/// An entry made from an SSH directory item keeps the item's kind: a
/// directory stays a directory, a symbolic link stays a symbolic link, and
/// anything else is a file.
pub proof fn lemma_entry_kind_follows_type(
    e: RemoteEntry,
    path: Seq<char>,
    name: Seq<char>,
    file_type: SftpFileType,
    size: Option<u64>,
    mtime: Option<u64>,
)
    requires
        is_sftp_entry(e, path, name, file_type, size, mtime),
    ensures
        file_type == SftpFileType::Directory ==> e.kind == RemoteEntryKind::Directory,
        file_type == SftpFileType::Symlink ==> e.kind == RemoteEntryKind::Symlink,
        file_type == SftpFileType::Other ==> e.kind == RemoteEntryKind::File,
{
}

/// Names that a listing skips: nothing, `.` and `..`.
pub open spec fn skipped_name(name: Seq<char>) -> bool {
    name.len() == 0 || name == seq!['.'] || name == seq!['.', '.']
}

/// The entry for a directory item, given its path, the file name that
/// `Path::file_name` found in it, its type, size and modification time;
/// nothing for the names a listing skips.
pub fn sftp_entry(
    path: String,
    file_name: Option<String>,
    file_type: SftpFileType,
    size: Option<u64>,
    mtime: Option<u64>,
) -> (r: Option<RemoteEntry>)
    ensures
        ({
            let name = match file_name {
                Some(n) => n@,
                None => seq![],
            };
            if skipped_name(name) {
                r is None
            } else {
                r matches Some(e) && is_sftp_entry(e, path@, name, file_type, size, mtime)
            }
        }),
        r matches Some(e) ==> match file_type {
            SftpFileType::Directory => e.kind == RemoteEntryKind::Directory,
            SftpFileType::Symlink => e.kind == RemoteEntryKind::Symlink,
            SftpFileType::Other => e.kind == RemoteEntryKind::File,
        },
{
    let name = match file_name {
        Some(n) => n,
        None => String::new(),
    };
    proof {
        reveal_strlit(".");
        reveal_strlit("..");
        assert("."@ =~= seq!['.']);
        assert(".."@ =~= seq!['.', '.']);
    }
    if name.as_str().is_empty() || same_text(name.as_str(), ".") || same_text(name.as_str(), "..") {
        return None;
    }
    let kind = match file_type {
        SftpFileType::Directory => RemoteEntryKind::Directory,
        SftpFileType::Symlink => RemoteEntryKind::Symlink,
        SftpFileType::Other => RemoteEntryKind::File,
    };
    let size = match size {
        Some(s) => s,
        None => 0,
    };
    let modified_unix = match mtime {
        Some(t) => Some(t as i64),
        None => None,
    };
    Some(RemoteEntry { name, path, kind, size, modified_unix })
}

/// An item of an SSH directory listing: its path, type, size and
/// modification time.
pub type SftpItem = (String, SftpFileType, Option<u64>, Option<u64>);

/// The name of an item as `Path::file_name` finds it in its path, or nothing.
pub open spec fn item_name(path: Seq<char>) -> Seq<char> {
    match path_file_name(path) {
        Some(n) => n,
        None => seq![],
    }
}

/// The positions, in order, of the items that a listing keeps: those whose
/// name is not skipped.
pub open spec fn kept_items(items: Seq<SftpItem>) -> Seq<int>
    decreases items.len(),
{
    if items.len() == 0 {
        seq![]
    } else {
        let rest = kept_items(items.drop_last());
        if skipped_name(item_name(items.last().0@)) {
            rest
        } else {
            rest.push(items.len() - 1)
        }
    }
}

/// The entries of an SSH directory listing, in the server's order: one for
/// each item whose name (what `Path::file_name` finds in its path) is
/// neither empty, `.` nor `..`.
pub fn sftp_entries(items: &Vec<SftpItem>) -> (r: Vec<RemoteEntry>)
    ensures
        r@.len() == kept_items(items@).len(),
        forall|k: int|
            0 <= k < r@.len() ==> {
                let p = kept_items(items@)[k];
                let item = items@[p];
                is_sftp_entry(#[trigger] r@[k], item.0@, item_name(item.0@), item.1, item.2, item.3)
            },
        forall|k: int|
            0 <= k < r@.len() ==> match items@[kept_items(items@)[k]].1 {
                SftpFileType::Directory => #[trigger] r@[k].kind == RemoteEntryKind::Directory,
                SftpFileType::Symlink => r@[k].kind == RemoteEntryKind::Symlink,
                SftpFileType::Other => r@[k].kind == RemoteEntryKind::File,
            },
{
    let mut r: Vec<RemoteEntry> = Vec::new();
    let mut i: usize = 0;
    while i < items.len()
        invariant
            i <= items@.len(),
            r@.len() == kept_items(items@.subrange(0, i as int)).len(),
            forall|k: int|
                0 <= k < r@.len() ==> {
                    let p = kept_items(items@.subrange(0, i as int))[k];
                    let item = items@[p];
                    is_sftp_entry(
                        #[trigger] r@[k],
                        item.0@,
                        item_name(item.0@),
                        item.1,
                        item.2,
                        item.3,
                    )
                },
            forall|k: int|
                0 <= k < kept_items(items@.subrange(0, i as int)).len() ==> 0 <= #[trigger] kept_items(
                    items@.subrange(0, i as int),
                )[k] < i,
        decreases items.len() - i,
    {
        let ghost prefix = items@.subrange(0, i + 1);
        assert(prefix.drop_last() =~= items@.subrange(0, i as int));
        let path = items[i].0.clone();
        let file_name = file_name_of(path.as_str());
        let entry = sftp_entry(path, file_name, items[i].1, items[i].2, items[i].3);
        match entry {
            Some(e) => {
                r.push(e);
            },
            None => {},
        }
        i = i + 1;
    }
    assert(items@.subrange(0, i as int) =~= items@);
    proof {
        assert forall|k: int| 0 <= k < r@.len() implies match items@[kept_items(items@)[k]].1 {
            SftpFileType::Directory => #[trigger] r@[k].kind == RemoteEntryKind::Directory,
            SftpFileType::Symlink => r@[k].kind == RemoteEntryKind::Symlink,
            SftpFileType::Other => r@[k].kind == RemoteEntryKind::File,
        } by {
            let item = items@[kept_items(items@)[k]];
            lemma_entry_kind_follows_type(r@[k], item.0@, item_name(item.0@), item.1, item.2, item.3);
        }
    }
    r
}

impl SftpSession {
    /// The peer the session reached.
    pub fn peer(&self) -> (r: String)
        ensures
            r == self.peer,
    {
        self.peer.clone()
    }

    /// The directory that listing `path` reads: the path made absolute.
    pub fn listing_path(&self, path: &str) -> (r: String)
        ensures
            r@ == normalized_remote(path@),
    {
        normalize_remote_path(path)
    }

    /// Checks a transfer: neither path may be blank; the first is checked
    /// first.
    pub fn check_transfer(&self, first: &str, first_field: &str, second: &str, second_field: &str) -> (r: Result<
        (),
        OcError,
    >)
        ensures
            if is_blank(first@) {
                r matches Err(OcError::InvalidCommand(m)) && m@ == empty_field_text(first_field@)
            } else if is_blank(second@) {
                r matches Err(OcError::InvalidCommand(m)) && m@ == empty_field_text(second_field@)
            } else {
                r is Ok
            },
    {
        match ensure_non_empty(first, first_field) {
            Err(e) => Err(e),
            Ok(()) => ensure_non_empty(second, second_field),
        }
    }
}

} // verus!
