//! Connection profiles, saved connections, the shared configuration and remote
//! directory entries, with the rules that a profile must meet.

use vstd::prelude::*;
use vstd::string::*;
use crate::error::OcError;
use crate::text::{
    blank, decimal, decimal_text, is_blank, lemma_trimmed_idempotent, trim, trim_back, trim_front,
    trimmed,
};

verus! {

/// The file-transfer protocols the backend knows.
#[derive(Debug, Clone, Copy, PartialEq, Eq, Hash, Structural)]
pub enum ProtocolKind {
    Ftp,
    Sftp,
    Ftps,
}

/// The lowercase name of a protocol, as it is shown and serialised.
pub open spec fn protocol_name(kind: ProtocolKind) -> Seq<char> {
    match kind {
        ProtocolKind::Ftp => "ftp"@,
        ProtocolKind::Sftp => "sftp"@,
        ProtocolKind::Ftps => "ftps"@,
    }
}

impl ProtocolKind {
    /// The protocol's name: `ftp`, `sftp` or `ftps`.
    pub fn label(&self) -> (r: &'static str)
        ensures
            r@ == protocol_name(*self),
    {
        match self {
            ProtocolKind::Ftp => "ftp",
            ProtocolKind::Sftp => "sftp",
            ProtocolKind::Ftps => "ftps",
        }
    }
}

/// How the transport of a connection is protected.
#[derive(Debug, Clone, Copy, PartialEq, Eq, Structural)]
pub enum ConnectionSecurity {
    PlainText,
    TlsExplicit,
    TlsImplicit,
    SshTransport,
}

/// The name of a security mode, as it is shown and serialised.
pub open spec fn security_name(security: ConnectionSecurity) -> Seq<char> {
    match security {
        ConnectionSecurity::PlainText => "plain_text"@,
        ConnectionSecurity::TlsExplicit => "tls_explicit"@,
        ConnectionSecurity::TlsImplicit => "tls_implicit"@,
        ConnectionSecurity::SshTransport => "ssh_transport"@,
    }
}

/// The name of a security mode.
pub fn security_label(security: ConnectionSecurity) -> (r: &'static str)
    ensures
        r@ == security_name(security),
{
    match security {
        ConnectionSecurity::PlainText => "plain_text",
        ConnectionSecurity::TlsExplicit => "tls_explicit",
        ConnectionSecurity::TlsImplicit => "tls_implicit",
        ConnectionSecurity::SshTransport => "ssh_transport",
    }
}

/// What a remote directory entry is.
#[derive(Debug, Clone, Copy, PartialEq, Eq, Structural)]
pub enum RemoteEntryKind {
    File,
    Directory,
    Symlink,
}

/// One entry of a remote directory listing.
#[derive(Debug, Clone)]
pub struct RemoteEntry {
    pub name: String,
    pub path: String,
    pub kind: RemoteEntryKind,
    pub size: u64,
    pub modified_unix: Option<i64>,
}

impl RemoteEntry {
    /// A copy of the entry, equal to it field by field.
    pub fn duplicate(&self) -> (r: RemoteEntry)
        ensures
            r == *self,
    {
        RemoteEntry {
            name: self.name.clone(),
            path: self.path.clone(),
            kind: self.kind,
            size: self.size,
            modified_unix: self.modified_unix,
        }
    }
}

/// Where and how to connect. Passwords and private keys are held as text
/// here; frontends keep them in secret-holding types.
#[derive(Clone)]
pub struct ConnectionProfile {
    pub protocol: ProtocolKind,
    pub host: String,
    pub port: u16,
    pub username: String,
    pub password: Option<String>,
    pub private_key_pem: Option<String>,
    pub private_key_path: Option<String>,
    pub security: ConnectionSecurity,
    pub strict_host_key_checking: bool,
    pub passive_mode: bool,
}

/// A connection profile saved under a name.
#[derive(Clone)]
pub struct SavedConnection {
    pub name: String,
    pub profile: ConnectionProfile,
}

/// The configuration shared by all frontends.
#[derive(Clone)]
pub struct AppConfig {
    pub default_editor: String,
    pub connections: Vec<SavedConnection>,
}

/// What a configuration holds: the editor and the saved connections.
pub struct ConfigView {
    pub editor: Seq<char>,
    pub connections: Seq<SavedConnection>,
}

impl View for AppConfig {
    type V = ConfigView;

    open spec fn view(&self) -> ConfigView {
        ConfigView { editor: self.default_editor@, connections: self.connections@ }
    }
}

/// The configuration `c` once normalised.
pub open spec fn normalized_config(c: ConfigView) -> ConfigView {
    ConfigView { editor: normalized_editor(c.editor), connections: c.connections }
}

/// The editor used when none is configured.
pub open spec fn default_editor_text() -> Seq<char> {
    "zed --wait"@
}

/// The editor used when none is configured: `zed --wait`.
pub fn default_editor() -> (r: String)
    ensures
        r@ == default_editor_text(),
{
    String::from_str("zed --wait")
}

/// The editor that a configuration holds once normalised: the configured one
/// without surrounding white space, or the default where that leaves nothing.
pub open spec fn normalized_editor(editor: Seq<char>) -> Seq<char> {
    if trimmed(editor).len() == 0 {
        default_editor_text()
    } else {
        trimmed(editor)
    }
}

/// A copy of an optional text.
pub fn copy_text(s: &Option<String>) -> (r: Option<String>)
    ensures
        r == *s,
{
    match s {
        Some(t) => Some(t.clone()),
        None => None,
    }
}

impl ConnectionProfile {
    /// A copy of the profile, equal to it field by field.
    pub fn duplicate(&self) -> (r: ConnectionProfile)
        ensures
            r == *self,
    {
        ConnectionProfile {
            protocol: self.protocol,
            host: self.host.clone(),
            port: self.port,
            username: self.username.clone(),
            password: copy_text(&self.password),
            private_key_pem: copy_text(&self.private_key_pem),
            private_key_path: copy_text(&self.private_key_path),
            security: self.security,
            strict_host_key_checking: self.strict_host_key_checking,
            passive_mode: self.passive_mode,
        }
    }
}

impl SavedConnection {
    /// A copy of the saved connection, equal to it field by field.
    pub fn duplicate(&self) -> (r: SavedConnection)
        ensures
            r == *self,
    {
        SavedConnection { name: self.name.clone(), profile: self.profile.duplicate() }
    }
}

/// A copy of a list of saved connections.
pub fn duplicate_connections(v: &Vec<SavedConnection>) -> (r: Vec<SavedConnection>)
    ensures
        r@ == v@,
{
    let mut r: Vec<SavedConnection> = Vec::new();
    let mut i: usize = 0;
    while i < v.len()
        invariant
            i <= v.len(),
            r@ == v@.subrange(0, i as int),
        decreases v.len() - i,
    {
        r.push(v[i].duplicate());
        i = i + 1;
        assert(r@ =~= v@.subrange(0, i as int));
    }
    assert(v@.subrange(0, v.len() as int) =~= v@);
    r
}

impl AppConfig {
    /// The configuration used when none exists yet: the default editor and no
    /// saved connections.
    pub fn default() -> (r: AppConfig)
        ensures
            r@ == (ConfigView { editor: default_editor_text(), connections: Seq::empty() }),
    {
        AppConfig { default_editor: default_editor(), connections: Vec::new() }
    }

    /// A copy of the configuration, equal to it field by field.
    pub fn duplicate(&self) -> (r: AppConfig)
        ensures
            r@ == self@,
    {
        AppConfig {
            default_editor: self.default_editor.clone(),
            connections: duplicate_connections(&self.connections),
        }
    }

    /// The configuration with its editor trimmed, or set to the default where
    /// trimming leaves nothing; the saved connections stay as they are.
    pub fn normalize(self) -> (r: AppConfig)
        ensures
            r@ == normalized_config(self@),
            r.connections == self.connections,
    {
        let AppConfig { default_editor: editor, connections } = self;
        let trimmed_editor = trim(editor.as_str());
        let chosen = if trimmed_editor.as_str().is_empty() {
            default_editor()
        } else {
            trimmed_editor
        };
        AppConfig { default_editor: chosen, connections }
    }
}

/// Why a profile is refused, in the order the checks are made.
#[derive(Debug, Clone, Copy, PartialEq, Eq, Structural)]
pub enum ProfileProblem {
    EmptyHost,
    ZeroPort,
    EmptyUsername,
    FtpNeedsPlainText,
    FtpNeedsPassword,
    FtpsNeedsTls,
    FtpsNeedsPassword,
    SftpNeedsSsh,
    SftpNeedsCredentials,
}

/// The profile carries a password.
pub open spec fn has_password(p: ConnectionProfile) -> bool {
    p.password is Some
}

/// The profile carries a private key: an inline one, or a path that is not
/// blank.
pub open spec fn has_private_key(p: ConnectionProfile) -> bool {
    ||| p.private_key_pem is Some
    ||| (p.private_key_path matches Some(path) && !is_blank(path@))
}

/// The first rule that the profile breaks, if any.
pub open spec fn profile_problem(p: ConnectionProfile) -> Option<ProfileProblem> {
    if is_blank(p.host@) {
        Some(ProfileProblem::EmptyHost)
    } else if p.port == 0 {
        Some(ProfileProblem::ZeroPort)
    } else if is_blank(p.username@) {
        Some(ProfileProblem::EmptyUsername)
    } else {
        match p.protocol {
            ProtocolKind::Ftp => if p.security != ConnectionSecurity::PlainText {
                Some(ProfileProblem::FtpNeedsPlainText)
            } else if !has_password(p) {
                Some(ProfileProblem::FtpNeedsPassword)
            } else {
                None
            },
            ProtocolKind::Ftps => if p.security != ConnectionSecurity::TlsExplicit && p.security
                != ConnectionSecurity::TlsImplicit {
                Some(ProfileProblem::FtpsNeedsTls)
            } else if !has_password(p) {
                Some(ProfileProblem::FtpsNeedsPassword)
            } else {
                None
            },
            ProtocolKind::Sftp => if p.security != ConnectionSecurity::SshTransport {
                Some(ProfileProblem::SftpNeedsSsh)
            } else if !has_password(p) && !has_private_key(p) {
                Some(ProfileProblem::SftpNeedsCredentials)
            } else {
                None
            },
        }
    }
}

/// The text of the error for each broken rule.
pub open spec fn problem_text(problem: ProfileProblem) -> Seq<char> {
    match problem {
        ProfileProblem::EmptyHost => "host cannot be empty"@,
        ProfileProblem::ZeroPort => "port cannot be 0"@,
        ProfileProblem::EmptyUsername => "username cannot be empty"@,
        ProfileProblem::FtpNeedsPlainText => "FTP requires security=plain_text"@,
        ProfileProblem::FtpNeedsPassword => "FTP requires password credentials"@,
        ProfileProblem::FtpsNeedsTls => "FTPS requires security=tls_explicit or tls_implicit"@,
        ProfileProblem::FtpsNeedsPassword => "FTPS requires password credentials"@,
        ProfileProblem::SftpNeedsSsh => "SFTP requires security=ssh_transport"@,
        ProfileProblem::SftpNeedsCredentials => "SFTP requires password, private_key_pem, or private_key_path"@,
    }
}

/// The address `host:port` of a profile.
pub open spec fn socket_address(p: ConnectionProfile) -> Seq<char> {
    p.host@ + ":"@ + decimal(p.port as nat)
}

fn problem_error(problem: ProfileProblem) -> (r: OcError)
    ensures
        r matches OcError::InvalidProfile(m) && m@ == problem_text(problem),
{
    let text = match problem {
        ProfileProblem::EmptyHost => "host cannot be empty",
        ProfileProblem::ZeroPort => "port cannot be 0",
        ProfileProblem::EmptyUsername => "username cannot be empty",
        ProfileProblem::FtpNeedsPlainText => "FTP requires security=plain_text",
        ProfileProblem::FtpNeedsPassword => "FTP requires password credentials",
        ProfileProblem::FtpsNeedsTls => "FTPS requires security=tls_explicit or tls_implicit",
        ProfileProblem::FtpsNeedsPassword => "FTPS requires password credentials",
        ProfileProblem::SftpNeedsSsh => "SFTP requires security=ssh_transport",
        ProfileProblem::SftpNeedsCredentials => "SFTP requires password, private_key_pem, or private_key_path",
    };
    OcError::InvalidProfile(String::from_str(text))
}

impl ConnectionProfile {
    /// The address `host:port`.
    pub fn socket_addr(&self) -> (r: String)
        ensures
            r@ == socket_address(*self),
    {
        let mut r = self.host.clone();
        r.append(":");
        let port = decimal_text(self.port as u64);
        r.append(port.as_str());
        r
    }

    /// Checks the profile against the rules: a host, a nonzero port and a
    /// user name that are not blank; for FTP plain-text security and a
    /// password; for FTPS explicit or implicit TLS and a password; for SFTP
    /// SSH transport and a password or a private key. The first rule broken is
    /// reported.
    pub fn validate(&self) -> (r: Result<(), OcError>)
        ensures
            match profile_problem(*self) {
                None => r is Ok,
                Some(problem) => r matches Err(OcError::InvalidProfile(m)) && m@ == problem_text(
                    problem,
                ),
            },
    {
        let problem = self.first_problem();
        match problem {
            None => Ok(()),
            Some(p) => Err(problem_error(p)),
        }
    }

    /// The first rule that the profile breaks, if any.
    pub fn first_problem(&self) -> (r: Option<ProfileProblem>)
        ensures
            r == profile_problem(*self),
    {
        if blank(self.host.as_str()) {
            return Some(ProfileProblem::EmptyHost);
        }
        if self.port == 0 {
            return Some(ProfileProblem::ZeroPort);
        }
        if blank(self.username.as_str()) {
            return Some(ProfileProblem::EmptyUsername);
        }
        let has_password = self.password.is_some();
        let has_private_key = self.private_key_pem.is_some() || match &self.private_key_path {
            Some(path) => !blank(path.as_str()),
            None => false,
        };
        match self.protocol {
            ProtocolKind::Ftp => {
                if self.security != ConnectionSecurity::PlainText {
                    return Some(ProfileProblem::FtpNeedsPlainText);
                }
                if !has_password {
                    return Some(ProfileProblem::FtpNeedsPassword);
                }
            },
            ProtocolKind::Ftps => {
                if self.security != ConnectionSecurity::TlsExplicit && self.security
                    != ConnectionSecurity::TlsImplicit {
                    return Some(ProfileProblem::FtpsNeedsTls);
                }
                if !has_password {
                    return Some(ProfileProblem::FtpsNeedsPassword);
                }
            },
            ProtocolKind::Sftp => {
                if self.security != ConnectionSecurity::SshTransport {
                    return Some(ProfileProblem::SftpNeedsSsh);
                }
                if !has_password && !has_private_key {
                    return Some(ProfileProblem::SftpNeedsCredentials);
                }
            },
        }
        None
    }
}


/// Normalising a configuration twice gives what normalising it once gives.
pub proof fn lemma_normalize_idempotent(c: ConfigView)
    ensures
        normalized_config(normalized_config(c)) == normalized_config(c),
        trimmed(normalized_config(c).editor) == normalized_config(c).editor,
        normalized_config(c).editor.len() > 0,
{
    lemma_trimmed_idempotent(c.editor);
    reveal_strlit("zed --wait");
    let d = default_editor_text();
    assert(d.len() == 10);
    assert(d[0] == 'z');
    assert(d.last() == 't');
    assert(trim_front(d) == d);
    assert(trim_back(d) == d);
}

} // verus!
