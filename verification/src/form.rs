//! The connection form of the terminal frontend: its fields, the defaults
//! each protocol brings, editing, and turning the form into a saved
//! connection.

use vstd::prelude::*;
use vstd::string::*;
use crate::sftp::opt_view;
use crate::text::{
    blank, decimal, decimal_text, is_blank, lemma_blank_iff_trimmed_empty, lemma_decimal_parses,
    parse_u16, parsed_u16, trim, trimmed,
};
use crate::types::{
    has_password, has_private_key, problem_text, profile_problem, ConnectionProfile,
    ConnectionSecurity, ProtocolKind, SavedConnection,
};

verus! {

/// A key press, as the frontend reads it.
#[derive(Debug, Clone, Copy, PartialEq, Eq, Structural)]
pub enum KeyCode {
    Esc,
    Tab,
    BackTab,
    Up,
    Down,
    Left,
    Right,
    Enter,
    Backspace,
    Delete,
    Char(char),
    Other,
}

/// A key press with the modifiers that matter.
#[derive(Debug, Clone, Copy, PartialEq, Eq, Structural)]
pub struct Key {
    pub code: KeyCode,
    pub ctrl: bool,
    pub alt: bool,
}

/// The fields of the form, in the order the cursor visits them.
#[derive(Debug, Clone, Copy, PartialEq, Eq, Structural)]
pub enum FormField {
    Name,
    Protocol,
    Host,
    Port,
    Username,
    Password,
    PrivateKeyPath,
    PrivateKeyPem,
    Security,
    StrictHostKeyChecking,
    PassiveMode,
    Submit,
    Cancel,
}

/// How many fields the form has.
pub open spec fn field_count() -> int {
    13
}

/// The position of a field in the visiting order.
pub open spec fn field_position(f: FormField) -> int {
    match f {
        FormField::Name => 0,
        FormField::Protocol => 1,
        FormField::Host => 2,
        FormField::Port => 3,
        FormField::Username => 4,
        FormField::Password => 5,
        FormField::PrivateKeyPath => 6,
        FormField::PrivateKeyPem => 7,
        FormField::Security => 8,
        FormField::StrictHostKeyChecking => 9,
        FormField::PassiveMode => 10,
        FormField::Submit => 11,
        FormField::Cancel => 12,
    }
}

/// The field at a position of the visiting order.
pub open spec fn field_at_position(i: int) -> FormField {
    if i == 0 {
        FormField::Name
    } else if i == 1 {
        FormField::Protocol
    } else if i == 2 {
        FormField::Host
    } else if i == 3 {
        FormField::Port
    } else if i == 4 {
        FormField::Username
    } else if i == 5 {
        FormField::Password
    } else if i == 6 {
        FormField::PrivateKeyPath
    } else if i == 7 {
        FormField::PrivateKeyPem
    } else if i == 8 {
        FormField::Security
    } else if i == 9 {
        FormField::StrictHostKeyChecking
    } else if i == 10 {
        FormField::PassiveMode
    } else if i == 11 {
        FormField::Submit
    } else {
        FormField::Cancel
    }
}

fn field_at(i: usize) -> (r: FormField)
    requires
        i < 13,
    ensures
        r == field_at_position(i as int),
{
    if i == 0 {
        FormField::Name
    } else if i == 1 {
        FormField::Protocol
    } else if i == 2 {
        FormField::Host
    } else if i == 3 {
        FormField::Port
    } else if i == 4 {
        FormField::Username
    } else if i == 5 {
        FormField::Password
    } else if i == 6 {
        FormField::PrivateKeyPath
    } else if i == 7 {
        FormField::PrivateKeyPem
    } else if i == 8 {
        FormField::Security
    } else if i == 9 {
        FormField::StrictHostKeyChecking
    } else if i == 10 {
        FormField::PassiveMode
    } else if i == 11 {
        FormField::Submit
    } else {
        FormField::Cancel
    }
}

impl FormField {
    /// The field's position in the visiting order.
    pub fn index(self) -> (r: usize)
        ensures
            r as int == field_position(self),
            r < 13,
    {
        match self {
            FormField::Name => 0,
            FormField::Protocol => 1,
            FormField::Host => 2,
            FormField::Port => 3,
            FormField::Username => 4,
            FormField::Password => 5,
            FormField::PrivateKeyPath => 6,
            FormField::PrivateKeyPem => 7,
            FormField::Security => 8,
            FormField::StrictHostKeyChecking => 9,
            FormField::PassiveMode => 10,
            FormField::Submit => 11,
            FormField::Cancel => 12,
        }
    }

    /// The field after this one, the first after the last.
    pub fn next(self) -> (r: FormField)
        ensures
            r == field_at_position((field_position(self) + 1) % field_count()),
    {
        let index = self.index();
        field_at((index + 1) % 13)
    }

    /// The field before this one, the last before the first.
    pub fn prev(self) -> (r: FormField)
        ensures
            r == field_at_position(
                if field_position(self) == 0 {
                    field_count() - 1
                } else {
                    field_position(self) - 1
                },
            ),
    {
        let index = self.index();
        let prev = if index == 0 {
            12
        } else {
            index - 1
        };
        field_at(prev)
    }
}

/// Going forward through the visiting order and back again returns to the
/// same field, and every field is visited once in a full round.
pub proof fn lemma_field_order_round_trip(f: FormField)
    ensures
        field_at_position(field_position(f)) == f,
        0 <= field_position(f) < field_count(),
        ({
            let n = field_at_position((field_position(f) + 1) % field_count());
            field_at_position(
                if field_position(n) == 0 {
                    field_count() - 1
                } else {
                    field_position(n) - 1
                },
            ) == f
        }),
{
}

/// The port, security, passive mode and strict host key checking that a
/// protocol starts with.
pub open spec fn defaults_of(protocol: ProtocolKind) -> (u16, ConnectionSecurity, bool, bool) {
    match protocol {
        ProtocolKind::Ftp => (21, ConnectionSecurity::PlainText, true, false),
        ProtocolKind::Sftp => (22, ConnectionSecurity::SshTransport, false, true),
        ProtocolKind::Ftps => (21, ConnectionSecurity::TlsExplicit, true, false),
    }
}

/// The port, security, passive mode and strict host key checking that a
/// protocol starts with.
pub fn protocol_defaults(protocol: ProtocolKind) -> (r: (u16, ConnectionSecurity, bool, bool))
    ensures
        r == defaults_of(protocol),
{
    match protocol {
        ProtocolKind::Ftp => (21, ConnectionSecurity::PlainText, true, false),
        ProtocolKind::Sftp => (22, ConnectionSecurity::SshTransport, false, true),
        ProtocolKind::Ftps => (21, ConnectionSecurity::TlsExplicit, true, false),
    }
}

/// Whether the form creates a connection or edits the one at an index.
#[derive(Debug, Clone, Copy, PartialEq, Eq, Structural)]
pub enum FormMode {
    Create,
    Edit(usize),
}

/// The connection form: the field under the cursor, the text typed into each
/// field, the choices made, and the last error.
pub struct ConnectionForm {
    pub mode: FormMode,
    pub field: FormField,
    pub name: String,
    pub protocol: ProtocolKind,
    pub host: String,
    pub port: String,
    pub username: String,
    pub password: String,
    pub private_key_path: String,
    pub private_key_pem: String,
    pub security: ConnectionSecurity,
    pub strict_host_key_checking: bool,
    pub passive_mode: bool,
    pub error: Option<String>,
}

/// The text a field holds, for the fields that hold text.
pub open spec fn field_text(f: ConnectionForm, field: FormField) -> Option<Seq<char>> {
    match field {
        FormField::Name => Some(f.name@),
        FormField::Host => Some(f.host@),
        FormField::Port => Some(f.port@),
        FormField::Username => Some(f.username@),
        FormField::Password => Some(f.password@),
        FormField::PrivateKeyPath => Some(f.private_key_path@),
        FormField::PrivateKeyPem => Some(f.private_key_pem@),
        _ => None,
    }
}

/// `new` is `old` with the text of the field under the cursor replaced by
/// `edit` of it; nothing else differs.
pub open spec fn edited(old: ConnectionForm, new: ConnectionForm, edit: spec_fn(Seq<char>) -> Seq<char>) -> bool {
    &&& new.mode == old.mode
    &&& new.field == old.field
    &&& new.protocol == old.protocol
    &&& new.security == old.security
    &&& new.strict_host_key_checking == old.strict_host_key_checking
    &&& new.passive_mode == old.passive_mode
    &&& new.error == old.error
    &&& forall|fd: FormField| #[trigger]
        field_text(new, fd) == if fd == old.field && field_text(old, fd) is Some {
            Some(edit(field_text(old, fd)->0))
        } else {
            field_text(old, fd)
        }
}

/// Calls `String::push`, which appends `c`.
#[verifier::external_body]
pub(crate) fn push_char(s: &mut String, c: char)
    ensures
        final(s)@ == old(s)@.push(c),
{
    s.push(c)
}

/// `s` without its last character, as `String::pop` leaves it.
pub open spec fn without_last(s: Seq<char>) -> Seq<char> {
    if s.len() == 0 {
        s
    } else {
        s.drop_last()
    }
}

pub(crate) fn drop_last_char(s: &String) -> (r: String)
    ensures
        r@ == without_last(s@),
{
    let n = s.as_str().unicode_len();
    if n == 0 {
        s.clone()
    } else {
        s.as_str().substring_char(0, n - 1).to_owned()
    }
}

/// What an option becomes when a text that counts as empty means nothing.
pub open spec fn some_unless(empty: bool, s: String) -> Option<String> {
    if empty {
        None
    } else {
        Some(s)
    }
}

/// `p` is the profile that form `f` describes with port `port`: host and
/// user name trimmed, a password only when one was typed, a key path
/// (trimmed) and an inline key only when they are not blank.
pub open spec fn described_profile(f: ConnectionForm, port: u16, p: ConnectionProfile) -> bool {
    &&& p.protocol == f.protocol
    &&& p.host@ == trimmed(f.host@)
    &&& p.port == port
    &&& p.username@ == trimmed(f.username@)
    &&& p.password == some_unless(f.password@.len() == 0, f.password)
    &&& opt_view(p.private_key_path) == if is_blank(f.private_key_path@) {
        None
    } else {
        Some(trimmed(f.private_key_path@))
    }
    &&& p.private_key_pem == some_unless(is_blank(f.private_key_pem@), f.private_key_pem)
    &&& p.security == f.security
    &&& p.strict_host_key_checking == f.strict_host_key_checking
    &&& p.passive_mode == f.passive_mode
}

/// What turning form `f` into a saved connection gives: the first message
/// of what is missing or wrong, or the connection.
pub open spec fn built_connection(f: ConnectionForm, r: Result<SavedConnection, String>) -> bool {
    if is_blank(f.name@) {
        r matches Err(m) && m@ == "Connection name is required."@
    } else if is_blank(f.host@) {
        r matches Err(m) && m@ == "Host is required."@
    } else if is_blank(f.username@) {
        r matches Err(m) && m@ == "Username is required."@
    } else {
        match parsed_u16(trimmed(f.port@)) {
            None => r matches Err(m) && m@ == "Port must be a number between 1 and 65535."@,
            Some(port) => exists|p: ConnectionProfile|
                #![trigger described_profile(f, port, p)]
                described_profile(f, port, p) && match profile_problem(p) {
                    Some(problem) => r matches Err(m) && m@ == "invalid connection profile: "@
                        + problem_text(problem),
                    None => r matches Ok(c) && c.name@ == trimmed(f.name@) && c.profile == p,
                },
        }
    }
}

/// An empty form for a new SFTP connection, with SFTP's defaults, the
/// cursor on the name.
pub open spec fn fresh_form(r: ConnectionForm) -> bool {
    &&& r.mode == FormMode::Create
    &&& r.field == FormField::Name
    &&& r.protocol == ProtocolKind::Sftp
    &&& r.port@ == decimal(22)
    &&& r.name@.len() == 0 && r.host@.len() == 0 && r.username@.len() == 0
    &&& r.password@.len() == 0 && r.private_key_path@.len() == 0 && r.private_key_pem@.len() == 0
    &&& r.security == ConnectionSecurity::SshTransport
    &&& !r.passive_mode
    &&& r.strict_host_key_checking
    &&& r.error is None
}

/// A form that edits the connection at `index`, filled with its values;
/// missing secrets and key path are empty text, the cursor on the name.
pub open spec fn filled_from(r: ConnectionForm, index: usize, connection: SavedConnection) -> bool {
    &&& r.mode == FormMode::Edit(index)
    &&& r.field == FormField::Name
    &&& r.name == connection.name
    &&& r.protocol == connection.profile.protocol
    &&& r.host == connection.profile.host
    &&& r.port@ == decimal(connection.profile.port as nat)
    &&& r.username == connection.profile.username
    &&& r.password@ == match connection.profile.password {
        Some(p) => p@,
        None => seq![],
    }
    &&& r.private_key_path@ == match connection.profile.private_key_path {
        Some(p) => p@,
        None => seq![],
    }
    &&& r.private_key_pem@ == match connection.profile.private_key_pem {
        Some(p) => p@,
        None => seq![],
    }
    &&& r.security == connection.profile.security
    &&& r.strict_host_key_checking == connection.profile.strict_host_key_checking
    &&& r.passive_mode == connection.profile.passive_mode
    &&& r.error is None
}

impl ConnectionForm {
    /// An empty form for a new SFTP connection, with SFTP's defaults.
    pub fn new_create() -> (r: ConnectionForm)
        ensures
            fresh_form(r),
    {
        let (port, security, passive_mode, strict_host_key_checking) = protocol_defaults(
            ProtocolKind::Sftp,
        );
        ConnectionForm {
            mode: FormMode::Create,
            field: FormField::Name,
            name: String::new(),
            protocol: ProtocolKind::Sftp,
            host: String::new(),
            port: decimal_text(port as u64),
            username: String::new(),
            password: String::new(),
            private_key_path: String::new(),
            private_key_pem: String::new(),
            security,
            strict_host_key_checking,
            passive_mode,
            error: None,
        }
    }

    /// A form that edits the connection at `index`, filled with its values;
    /// missing secrets and key path are empty text.
    pub fn from_existing(index: usize, connection: SavedConnection) -> (r: ConnectionForm)
        ensures
            filled_from(r, index, connection),
    {
        let SavedConnection { name, profile } = connection;
        let ConnectionProfile {
            protocol,
            host,
            port,
            username,
            password,
            private_key_pem,
            private_key_path,
            security,
            strict_host_key_checking,
            passive_mode,
        } = profile;
        ConnectionForm {
            mode: FormMode::Edit(index),
            field: FormField::Name,
            name,
            protocol,
            host,
            port: decimal_text(port as u64),
            username,
            password: match password {
                Some(p) => p,
                None => String::new(),
            },
            private_key_path: match private_key_path {
                Some(p) => p,
                None => String::new(),
            },
            private_key_pem: match private_key_pem {
                Some(p) => p,
                None => String::new(),
            },
            security,
            strict_host_key_checking,
            passive_mode,
            error: None,
        }
    }

    /// Switches to `protocol` and to its defaults for port, security,
    /// passive mode and host key checking.
    pub fn set_protocol(&mut self, protocol: ProtocolKind)
        ensures
            final(self).protocol == protocol,
            final(self).port@ == decimal(defaults_of(protocol).0 as nat),
            final(self).security == defaults_of(protocol).1,
            final(self).passive_mode == defaults_of(protocol).2,
            final(self).strict_host_key_checking == defaults_of(protocol).3,
            final(self).mode == old(self).mode,
            final(self).field == old(self).field,
            final(self).name == old(self).name,
            final(self).host == old(self).host,
            final(self).username == old(self).username,
            final(self).password == old(self).password,
            final(self).private_key_path == old(self).private_key_path,
            final(self).private_key_pem == old(self).private_key_pem,
            final(self).error == old(self).error,
    {
        self.protocol = protocol;
        let (port, security, passive_mode, strict_host_key_checking) = protocol_defaults(protocol);
        self.port = decimal_text(port as u64);
        self.security = security;
        self.passive_mode = passive_mode;
        self.strict_host_key_checking = strict_host_key_checking;
    }

    /// Moves to the next protocol (FTP, SFTP, FTPS, and round again), or to
    /// the previous one, with its defaults.
    pub fn cycle_protocol(&mut self, forward: bool)
        ensures
            final(self).protocol == cycled_protocol(old(self).protocol, forward),
            final(self).port@ == decimal(defaults_of(final(self).protocol).0 as nat),
            final(self).security == defaults_of(final(self).protocol).1,
            final(self).passive_mode == defaults_of(final(self).protocol).2,
            final(self).strict_host_key_checking == defaults_of(final(self).protocol).3,
            final(self).mode == old(self).mode,
            final(self).field == old(self).field,
            final(self).name == old(self).name,
            final(self).host == old(self).host,
            final(self).username == old(self).username,
            final(self).password == old(self).password,
            final(self).private_key_path == old(self).private_key_path,
            final(self).private_key_pem == old(self).private_key_pem,
            final(self).error == old(self).error,
    {
        let next = match (self.protocol, forward) {
            (ProtocolKind::Ftp, true) => ProtocolKind::Sftp,
            (ProtocolKind::Sftp, true) => ProtocolKind::Ftps,
            (ProtocolKind::Ftps, true) => ProtocolKind::Ftp,
            (ProtocolKind::Ftp, false) => ProtocolKind::Ftps,
            (ProtocolKind::Sftp, false) => ProtocolKind::Ftp,
            (ProtocolKind::Ftps, false) => ProtocolKind::Sftp,
        };
        self.set_protocol(next);
    }

    /// Moves to the next security mode that the protocol allows: FTP has
    /// only plain text and SFTP only SSH; FTPS alternates between explicit
    /// and implicit TLS.
    pub fn cycle_security(&mut self)
        ensures
            final(self).security == cycled_security(old(self).protocol, old(self).security),
            final(self).mode == old(self).mode,
            final(self).field == old(self).field,
            final(self).name == old(self).name,
            final(self).protocol == old(self).protocol,
            final(self).host == old(self).host,
            final(self).port == old(self).port,
            final(self).username == old(self).username,
            final(self).password == old(self).password,
            final(self).private_key_path == old(self).private_key_path,
            final(self).private_key_pem == old(self).private_key_pem,
            final(self).strict_host_key_checking == old(self).strict_host_key_checking,
            final(self).passive_mode == old(self).passive_mode,
            final(self).error == old(self).error,
    {
        self.security = match self.protocol {
            ProtocolKind::Ftp => ConnectionSecurity::PlainText,
            ProtocolKind::Sftp => ConnectionSecurity::SshTransport,
            ProtocolKind::Ftps => match self.security {
                ConnectionSecurity::TlsExplicit => ConnectionSecurity::TlsImplicit,
                _ => ConnectionSecurity::TlsExplicit,
            },
        };
    }

    /// Flips the yes/no choice under the cursor, if the cursor is on one.
    pub fn toggle_boolean_field(&mut self)
        ensures
            final(self).strict_host_key_checking == (if old(self).field
                == FormField::StrictHostKeyChecking {
                !old(self).strict_host_key_checking
            } else {
                old(self).strict_host_key_checking
            }),
            final(self).passive_mode == (if old(self).field == FormField::PassiveMode {
                !old(self).passive_mode
            } else {
                old(self).passive_mode
            }),
            final(self).mode == old(self).mode,
            final(self).field == old(self).field,
            final(self).name == old(self).name,
            final(self).protocol == old(self).protocol,
            final(self).host == old(self).host,
            final(self).port == old(self).port,
            final(self).username == old(self).username,
            final(self).password == old(self).password,
            final(self).private_key_path == old(self).private_key_path,
            final(self).private_key_pem == old(self).private_key_pem,
            final(self).security == old(self).security,
            final(self).error == old(self).error,
    {
        match self.field {
            FormField::StrictHostKeyChecking => {
                self.strict_host_key_checking = !self.strict_host_key_checking;
            },
            FormField::PassiveMode => {
                self.passive_mode = !self.passive_mode;
            },
            _ => {},
        }
    }

    /// Types `ch` into the field under the cursor, if it holds text.
    pub fn push_active_text(&mut self, ch: char)
        ensures
            edited(*old(self), *final(self), |s: Seq<char>| s.push(ch)),
    {
        match self.field {
            FormField::Name => push_char(&mut self.name, ch),
            FormField::Host => push_char(&mut self.host, ch),
            FormField::Port => push_char(&mut self.port, ch),
            FormField::Username => push_char(&mut self.username, ch),
            FormField::Password => push_char(&mut self.password, ch),
            FormField::PrivateKeyPath => push_char(&mut self.private_key_path, ch),
            FormField::PrivateKeyPem => push_char(&mut self.private_key_pem, ch),
            _ => {},
        }
    }

    /// Erases the last character of the field under the cursor, if it holds
    /// text.
    pub fn pop_active_text(&mut self)
        ensures
            edited(*old(self), *final(self), |s: Seq<char>| without_last(s)),
    {
        match self.field {
            FormField::Name => {
                self.name = drop_last_char(&self.name);
            },
            FormField::Host => {
                self.host = drop_last_char(&self.host);
            },
            FormField::Port => {
                self.port = drop_last_char(&self.port);
            },
            FormField::Username => {
                self.username = drop_last_char(&self.username);
            },
            FormField::Password => {
                self.password = drop_last_char(&self.password);
            },
            FormField::PrivateKeyPath => {
                self.private_key_path = drop_last_char(&self.private_key_path);
            },
            FormField::PrivateKeyPem => {
                self.private_key_pem = drop_last_char(&self.private_key_pem);
            },
            _ => {},
        }
    }

    /// Turns the form into a saved connection: a name, a host and a user
    /// name must be given, the port must parse, and the profile must pass
    /// `validate`; the first failure gives the message.
    pub fn build_connection(&self) -> (r: Result<SavedConnection, String>)
        ensures
            built_connection(*self, r),
    {
        if blank(self.name.as_str()) {
            return Err(String::from_str("Connection name is required."));
        }
        if blank(self.host.as_str()) {
            return Err(String::from_str("Host is required."));
        }
        if blank(self.username.as_str()) {
            return Err(String::from_str("Username is required."));
        }
        let port_text = trim(self.port.as_str());
        let port = match parse_u16(port_text.as_str()) {
            Some(p) => p,
            None => {
                return Err(String::from_str("Port must be a number between 1 and 65535."));
            },
        };
        let password = if self.password.as_str().is_empty() {
            None
        } else {
            Some(self.password.clone())
        };
        let private_key_path = if blank(self.private_key_path.as_str()) {
            None
        } else {
            Some(trim(self.private_key_path.as_str()))
        };
        let private_key_pem = if blank(self.private_key_pem.as_str()) {
            None
        } else {
            Some(self.private_key_pem.clone())
        };
        let profile = ConnectionProfile {
            protocol: self.protocol,
            host: trim(self.host.as_str()),
            port,
            username: trim(self.username.as_str()),
            password,
            private_key_pem,
            private_key_path,
            security: self.security,
            strict_host_key_checking: self.strict_host_key_checking,
            passive_mode: self.passive_mode,
        };
        assert(described_profile(*self, port, profile));
        match profile.validate() {
            Err(error) => {
                return Err(error.message());
            },
            Ok(()) => {},
        }
        Ok(SavedConnection { name: trim(self.name.as_str()), profile })
    }
}

/// The protocol after `p`, going forward (FTP, SFTP, FTPS) or back.
pub open spec fn cycled_protocol(p: ProtocolKind, forward: bool) -> ProtocolKind {
    match (p, forward) {
        (ProtocolKind::Ftp, true) => ProtocolKind::Sftp,
        (ProtocolKind::Sftp, true) => ProtocolKind::Ftps,
        (ProtocolKind::Ftps, true) => ProtocolKind::Ftp,
        (ProtocolKind::Ftp, false) => ProtocolKind::Ftps,
        (ProtocolKind::Sftp, false) => ProtocolKind::Ftp,
        (ProtocolKind::Ftps, false) => ProtocolKind::Sftp,
    }
}

/// The security mode after `s` for protocol `p`.
pub open spec fn cycled_security(p: ProtocolKind, s: ConnectionSecurity) -> ConnectionSecurity {
    match p {
        ProtocolKind::Ftp => ConnectionSecurity::PlainText,
        ProtocolKind::Sftp => ConnectionSecurity::SshTransport,
        ProtocolKind::Ftps => match s {
            ConnectionSecurity::TlsExplicit => ConnectionSecurity::TlsImplicit,
            _ => ConnectionSecurity::TlsExplicit,
        },
    }
}

/// Cycling the protocol forward and then back returns to it.
pub proof fn lemma_cycle_protocol_inverse(p: ProtocolKind)
    ensures
        cycled_protocol(cycled_protocol(p, true), false) == p,
        cycled_protocol(cycled_protocol(p, false), true) == p,
        cycled_protocol(cycled_protocol(cycled_protocol(p, true), true), true) == p,
{
}

/// The defaults a protocol brings pass the protocol/security rule of
/// `validate`: cycling the security within a protocol never leaves it.
pub proof fn lemma_defaults_compatible(p: ProtocolKind, s: ConnectionSecurity)
    ensures
        match p {
            ProtocolKind::Ftp => defaults_of(p).1 == ConnectionSecurity::PlainText
                && cycled_security(p, s) == ConnectionSecurity::PlainText,
            ProtocolKind::Sftp => defaults_of(p).1 == ConnectionSecurity::SshTransport
                && cycled_security(p, s) == ConnectionSecurity::SshTransport,
            ProtocolKind::Ftps => (defaults_of(p).1 == ConnectionSecurity::TlsExplicit
                || defaults_of(p).1 == ConnectionSecurity::TlsImplicit) && (cycled_security(p, s)
                == ConnectionSecurity::TlsExplicit || cycled_security(p, s)
                == ConnectionSecurity::TlsImplicit),
        },
{
}


/// `a` and `b` hold the same name and profile, texts compared by their
/// characters.
pub open spec fn same_saved_connection(a: SavedConnection, b: SavedConnection) -> bool {
    &&& a.name@ == b.name@
    &&& a.profile.protocol == b.profile.protocol
    &&& a.profile.host@ == b.profile.host@
    &&& a.profile.port == b.profile.port
    &&& a.profile.username@ == b.profile.username@
    &&& opt_view(a.profile.password) == opt_view(b.profile.password)
    &&& opt_view(a.profile.private_key_pem) == opt_view(b.profile.private_key_pem)
    &&& opt_view(a.profile.private_key_path) == opt_view(b.profile.private_key_path)
    &&& a.profile.security == b.profile.security
    &&& a.profile.strict_host_key_checking == b.profile.strict_host_key_checking
    &&& a.profile.passive_mode == b.profile.passive_mode
}

/// A saved connection that the form holds without loss: name, host and user
/// name trimmed and not empty, a profile that passes `validate`, a password
/// that is not empty, a key path trimmed and not empty, an inline key that
/// is not blank.
pub open spec fn form_holds_whole(c: SavedConnection) -> bool {
    let p = c.profile;
    &&& trimmed(c.name@) == c.name@ && c.name@.len() > 0
    &&& trimmed(p.host@) == p.host@ && p.host@.len() > 0
    &&& trimmed(p.username@) == p.username@ && p.username@.len() > 0
    &&& profile_problem(p) is None
    &&& match p.password {
        Some(pw) => pw@.len() > 0,
        None => true,
    }
    &&& match p.private_key_path {
        Some(k) => trimmed(k@) == k@ && k@.len() > 0,
        None => true,
    }
    &&& match p.private_key_pem {
        Some(k) => !is_blank(k@),
        None => true,
    }
}

/// Opening the form on a saved connection that it holds without loss, and
/// submitting it unchanged, gives that connection back.
pub proof fn lemma_form_round_trip(
    index: usize,
    c: SavedConnection,
    f: ConnectionForm,
    r: Result<SavedConnection, String>,
)
    requires
        form_holds_whole(c),
        filled_from(f, index, c),
        built_connection(f, r),
    ensures
        r matches Ok(b) && same_saved_connection(b, c),
{
    let p = c.profile;
    lemma_blank_iff_trimmed_empty(c.name@);
    lemma_blank_iff_trimmed_empty(p.host@);
    lemma_blank_iff_trimmed_empty(p.username@);
    lemma_decimal_parses(p.port);
    if p.private_key_path is Some {
        lemma_blank_iff_trimmed_empty(p.private_key_path->0@);
    }
    assert(!is_blank(f.name@) && !is_blank(f.host@) && !is_blank(f.username@));
    assert(parsed_u16(trimmed(f.port@)) == Some(p.port));
    let q = choose|q: ConnectionProfile|
        #![trigger described_profile(f, p.port, q)]
        described_profile(f, p.port, q) && match profile_problem(q) {
            Some(problem) => r matches Err(m) && m@ == "invalid connection profile: "@
                + problem_text(problem),
            None => r matches Ok(b) && b.name@ == trimmed(f.name@) && b.profile == q,
        };
    assert(opt_view(q.password) == opt_view(p.password));
    assert(opt_view(q.private_key_path) == opt_view(p.private_key_path));
    assert(opt_view(q.private_key_pem) == opt_view(p.private_key_pem));
    assert(is_blank(q.host@) == is_blank(p.host@));
    assert(is_blank(q.username@) == is_blank(p.username@));
    assert(has_password(q) == has_password(p));
    assert(has_private_key(q) == has_private_key(p));
    assert(profile_problem(q) == profile_problem(p));
}

/// What a key press in the form asks of the screen around it.
pub enum FormAction {
    Stay,
    Cancel,
    Save { mode: FormMode, connection: Result<SavedConnection, String> },
}

/// `n` is `o` with the protocol cycled (forward or back) and its defaults.
pub open spec fn protocol_cycled(o: ConnectionForm, n: ConnectionForm, forward: bool) -> bool {
    &&& n.protocol == cycled_protocol(o.protocol, forward)
    &&& n.port@ == decimal(defaults_of(n.protocol).0 as nat)
    &&& n == (ConnectionForm {
        protocol: n.protocol,
        port: n.port,
        security: defaults_of(n.protocol).1,
        passive_mode: defaults_of(n.protocol).2,
        strict_host_key_checking: defaults_of(n.protocol).3,
        ..o
    })
}

/// `o` with the security cycled.
pub open spec fn security_cycled(o: ConnectionForm) -> ConnectionForm {
    ConnectionForm { security: cycled_security(o.protocol, o.security), ..o }
}

/// `o` with the yes/no choice under the cursor flipped.
pub open spec fn choice_toggled(o: ConnectionForm) -> ConnectionForm {
    ConnectionForm {
        strict_host_key_checking: if o.field == FormField::StrictHostKeyChecking {
            !o.strict_host_key_checking
        } else {
            o.strict_host_key_checking
        },
        passive_mode: if o.field == FormField::PassiveMode {
            !o.passive_mode
        } else {
            o.passive_mode
        },
        ..o
    }
}

/// `o` with the cursor on `field`.
pub open spec fn moved_to(o: ConnectionForm, field: FormField) -> ConnectionForm {
    ConnectionForm { field, ..o }
}

/// What a key press does to the form (whose error has been cleared, `o`)
/// and what it asks of the screen: Esc cancels; Tab/Down and BackTab/Up move
/// the cursor; Left/Right cycle the protocol on its field; Enter submits,
/// cancels, cycles or toggles by field, or moves on; Space cycles or toggles
/// by field and types nothing; Backspace erases; other characters are typed
/// unless Ctrl or Alt is held.
pub open spec fn form_key_effect(o: ConnectionForm, key: Key, n: ConnectionForm, action: FormAction) -> bool {
    match key.code {
        KeyCode::Esc => n == o && action is Cancel,
        KeyCode::Tab | KeyCode::Down => n == moved_to(
            o,
            field_at_position((field_position(o.field) + 1) % field_count()),
        ) && action is Stay,
        KeyCode::BackTab | KeyCode::Up => n == moved_to(
            o,
            field_at_position(
                if field_position(o.field) == 0 {
                    field_count() - 1
                } else {
                    field_position(o.field) - 1
                },
            ),
        ) && action is Stay,
        KeyCode::Left => action is Stay && if o.field == FormField::Protocol {
            protocol_cycled(o, n, false)
        } else {
            n == o
        },
        KeyCode::Right => action is Stay && if o.field == FormField::Protocol {
            protocol_cycled(o, n, true)
        } else {
            n == o
        },
        KeyCode::Enter => match o.field {
            FormField::Submit => n == o && (action matches FormAction::Save { mode, connection }
                && mode == o.mode && built_connection(o, connection)),
            FormField::Cancel => n == o && action is Cancel,
            FormField::Protocol => protocol_cycled(o, n, true) && action is Stay,
            FormField::Security => n == security_cycled(o) && action is Stay,
            FormField::StrictHostKeyChecking | FormField::PassiveMode => n == choice_toggled(o)
                && action is Stay,
            _ => n == moved_to(o, field_at_position((field_position(o.field) + 1) % field_count()))
                && action is Stay,
        },
        KeyCode::Char(' ') => action is Stay && match o.field {
            FormField::Protocol => protocol_cycled(o, n, true),
            FormField::Security => n == security_cycled(o),
            FormField::StrictHostKeyChecking | FormField::PassiveMode => n == choice_toggled(o),
            _ => n == o,
        },
        KeyCode::Backspace => edited(o, n, |s: Seq<char>| without_last(s)) && action is Stay,
        KeyCode::Char(ch) => action is Stay && if !key.ctrl && !key.alt {
            edited(o, n, |s: Seq<char>| s.push(ch))
        } else {
            n == o
        },
        _ => n == o && action is Stay,
    }
}

impl ConnectionForm {
    /// Handles a key press in the form: clears the last error, then acts as
    /// `form_key_effect` says.
    pub fn handle_key(&mut self, key: Key) -> (action: FormAction)
        ensures
            form_key_effect(ConnectionForm { error: None, ..*old(self) }, key, *final(self), action),
    {
        self.error = None;
        match key.code {
            KeyCode::Esc => FormAction::Cancel,
            KeyCode::Tab | KeyCode::Down => {
                self.field = self.field.next();
                FormAction::Stay
            },
            KeyCode::BackTab | KeyCode::Up => {
                self.field = self.field.prev();
                FormAction::Stay
            },
            KeyCode::Left => {
                if self.field == FormField::Protocol {
                    self.cycle_protocol(false);
                }
                FormAction::Stay
            },
            KeyCode::Right => {
                if self.field == FormField::Protocol {
                    self.cycle_protocol(true);
                }
                FormAction::Stay
            },
            KeyCode::Enter => match self.field {
                FormField::Submit => FormAction::Save {
                    mode: self.mode,
                    connection: self.build_connection(),
                },
                FormField::Cancel => FormAction::Cancel,
                FormField::Protocol => {
                    self.cycle_protocol(true);
                    FormAction::Stay
                },
                FormField::Security => {
                    self.cycle_security();
                    FormAction::Stay
                },
                FormField::StrictHostKeyChecking | FormField::PassiveMode => {
                    self.toggle_boolean_field();
                    FormAction::Stay
                },
                _ => {
                    self.field = self.field.next();
                    FormAction::Stay
                },
            },
            KeyCode::Char(' ') => {
                match self.field {
                    FormField::Protocol => self.cycle_protocol(true),
                    FormField::Security => self.cycle_security(),
                    FormField::StrictHostKeyChecking | FormField::PassiveMode => {
                        self.toggle_boolean_field();
                    },
                    _ => {},
                }
                FormAction::Stay
            },
            KeyCode::Backspace => {
                self.pop_active_text();
                FormAction::Stay
            },
            KeyCode::Char(ch) => {
                if !key.ctrl && !key.alt {
                    self.push_active_text(ch);
                }
                FormAction::Stay
            },
            _ => FormAction::Stay,
        }
    }
}

} // verus!
