//! The decisions of the desktop frontend: the demo profile each protocol
//! starts from, which protocol a choice names, and which session the window
//! holds after a response.

use vstd::prelude::*;
use vstd::string::*;
use crate::command::{SessionId, UiCommand, UiResponse};
use crate::text::same_text;
use crate::types::{ConnectionProfile, ConnectionSecurity, ProtocolKind};

verus! {

/// The demo profile for a protocol: `demo@localhost` with password
/// `change-me`, the protocol's usual port and transport, host keys checked,
/// passive mode for the FTP family.
pub open spec fn demo_profile(protocol: ProtocolKind, p: ConnectionProfile) -> bool {
    &&& p.protocol == protocol
    &&& p.host@ == "localhost"@
    &&& p.username@ == "demo"@
    &&& p.password matches Some(pw) && pw@ == "change-me"@
    &&& p.private_key_pem is None
    &&& p.private_key_path is None
    &&& p.strict_host_key_checking
    &&& match protocol {
        ProtocolKind::Ftp => p.port == 21 && p.security == ConnectionSecurity::PlainText
            && p.passive_mode,
        ProtocolKind::Ftps => p.port == 21 && p.security == ConnectionSecurity::TlsExplicit
            && p.passive_mode,
        ProtocolKind::Sftp => p.port == 22 && p.security == ConnectionSecurity::SshTransport
            && !p.passive_mode,
    }
}

/// The demo profile the window connects with for a protocol.
pub fn profile_for(protocol: ProtocolKind) -> (r: ConnectionProfile)
    ensures
        demo_profile(protocol, r),
{
    let (port, security, passive_mode) = match protocol {
        ProtocolKind::Ftp => (21u16, ConnectionSecurity::PlainText, true),
        ProtocolKind::Ftps => (21u16, ConnectionSecurity::TlsExplicit, true),
        ProtocolKind::Sftp => (22u16, ConnectionSecurity::SshTransport, false),
    };
    ConnectionProfile {
        protocol,
        host: String::from_str("localhost"),
        port,
        username: String::from_str("demo"),
        password: Some(String::from_str("change-me")),
        private_key_pem: None,
        private_key_path: None,
        security,
        strict_host_key_checking: true,
        passive_mode,
    }
}

/// The protocol a choice id names: `ftp` and `ftps` name theirs, anything
/// else (or no choice) means SFTP.
pub open spec fn protocol_from_choice(id: Option<&str>) -> ProtocolKind {
    match id {
        Some(s) => if s@ == "ftp"@ {
            ProtocolKind::Ftp
        } else if s@ == "ftps"@ {
            ProtocolKind::Ftps
        } else {
            ProtocolKind::Sftp
        },
        None => ProtocolKind::Sftp,
    }
}

/// The protocol a choice id names.
pub fn protocol_from_combo_id(id: Option<&str>) -> (r: ProtocolKind)
    ensures
        r == protocol_from_choice(id),
{
    match id {
        Some(s) => {
            if same_text(s, "ftp") {
                ProtocolKind::Ftp
            } else if same_text(s, "ftps") {
                ProtocolKind::Ftps
            } else {
                ProtocolKind::Sftp
            }
        },
        None => ProtocolKind::Sftp,
    }
}

/// The session the window holds after a response: the new one after a
/// connection, none after a disconnection, the same otherwise.
pub fn session_after(held: Option<SessionId>, response: &UiResponse) -> (r: Option<SessionId>)
    ensures
        r == match response {
            UiResponse::Connected { session_id, .. } => Some(*session_id),
            UiResponse::Disconnected { .. } => None,
            _ => held,
        },
{
    match response {
        UiResponse::Connected { session_id, .. } => Some(*session_id),
        UiResponse::Disconnected { .. } => None,
        _ => held,
    }
}

/// The buttons of the desktop window.
#[derive(Debug, Clone, Copy, PartialEq, Eq, Structural)]
pub enum DesktopButton {
    Connect,
    ListRoot,
    Disconnect,
}

/// What a button asks of the backend: Connect connects with the demo
/// profile of the chosen protocol; List lists `/` and Disconnect closes the
/// session, where one is held; otherwise the message to log.
pub fn button_command(button: DesktopButton, held: Option<SessionId>, choice: Option<&str>) -> (r:
    Result<UiCommand, String>)
    ensures
        match button {
            DesktopButton::Connect => r matches Ok(UiCommand::Connect { profile }) && demo_profile(
                protocol_from_choice(choice),
                profile,
            ),
            DesktopButton::ListRoot => match held {
                Some(id) => r matches Ok(UiCommand::ListDirectory { session_id, path })
                    && session_id == id && path@ == "/"@,
                None => r matches Err(m) && m@ == "No active session."@,
            },
            DesktopButton::Disconnect => match held {
                Some(id) => r matches Ok(UiCommand::Disconnect { session_id }) && session_id == id,
                None => r matches Err(m) && m@ == "No active session."@,
            },
        },
{
    match button {
        DesktopButton::Connect => {
            let profile = profile_for(protocol_from_combo_id(choice));
            Ok(UiCommand::Connect { profile })
        },
        DesktopButton::ListRoot => match held {
            Some(id) => Ok(UiCommand::ListDirectory { session_id: id, path: String::from_str("/") }),
            None => Err(String::from_str("No active session.")),
        },
        DesktopButton::Disconnect => match held {
            Some(id) => Ok(UiCommand::Disconnect { session_id: id }),
            None => Err(String::from_str("No active session.")),
        },
    }
}

} // verus!
