//! The command dispatcher: it holds the protocol registry, the open sessions
//! and the shared configuration, and decides what each command needs.
//!
//! Commands that need outside work (a network connection, a remote file
//! operation, writing the configuration file) are answered in two steps:
//! `begin` says what work is needed and hands out what it needs, and the
//! matching `finish_*` function takes the outcome of that work and gives the
//! response.

use vstd::prelude::*;
use vstd::string::*;
use std::collections::HashMap;
use crate::command::{is_error_response, reports, SessionId, TransferDirection, UiCommand, UiResponse};
use crate::error::OcError;
use crate::ids::new_session_id;
use crate::registry::{supported_kinds, ProtocolRegistry};
use crate::types::{
    normalized_config, profile_problem, problem_text, protocol_name, AppConfig, ConfigView,
    ConnectionProfile, ProtocolKind, RemoteEntry,
};

verus! {

broadcast use vstd::std_specs::hash::group_hash_axioms;

/// An operation on an open session.
pub enum SessionOp {
    ListDirectory { path: String },
    UploadFile { local_path: String, remote_path: String },
    DownloadFile { remote_path: String, local_path: String },
    DeletePath { remote_path: String },
    RenamePath { from: String, to: String },
}

/// What a command needs next.
pub enum Step<S> {
    /// The command is answered: nothing outside is needed.
    Reply(UiResponse),
    /// Connect with the factory registered for the profile's protocol.
    Connect { profile: ConnectionProfile },
    /// Write `config` to the file at `path`.
    SaveConfig { path: String, config: AppConfig },
    /// Close `session`, which is no longer held.
    Disconnect { session_id: SessionId, session: S },
    /// Run `op` on `session`, and hand the session back with the outcome.
    Session { session_id: SessionId, session: S, op: SessionOp },
}

/// What a backend holds.
pub struct BackendView<F, S> {
    pub factories: Map<ProtocolKind, F>,
    pub sessions: Map<SessionId, S>,
    pub config_path: Seq<char>,
    pub config: ConfigView,
}

/// `v` with `sessions` in place of its sessions.
pub open spec fn with_sessions<F, S>(v: BackendView<F, S>, sessions: Map<SessionId, S>) -> BackendView<
    F,
    S,
> {
    BackendView { sessions, ..v }
}

/// The session and operation that a command asks for, for the commands that
/// act on an open session other than closing it.
pub open spec fn session_request(command: UiCommand) -> Option<(SessionId, SessionOp)> {
    match command {
        UiCommand::ListDirectory { session_id, path } => Some(
            (session_id, SessionOp::ListDirectory { path }),
        ),
        UiCommand::UploadFile { session_id, local_path, remote_path } => Some(
            (session_id, SessionOp::UploadFile { local_path, remote_path }),
        ),
        UiCommand::DownloadFile { session_id, remote_path, local_path } => Some(
            (session_id, SessionOp::DownloadFile { remote_path, local_path }),
        ),
        UiCommand::DeletePath { session_id, remote_path } => Some(
            (session_id, SessionOp::DeletePath { remote_path }),
        ),
        UiCommand::RenamePath { session_id, from, to } => Some(
            (session_id, SessionOp::RenamePath { from, to }),
        ),
        _ => None,
    }
}

/// The session that a command names, if it names one.
pub open spec fn named_session(command: UiCommand) -> Option<SessionId> {
    match command {
        UiCommand::Disconnect { session_id } => Some(session_id),
        _ => match session_request(command) {
            Some((id, _)) => Some(id),
            None => None,
        },
    }
}

/// `step` answers with the error that reports `e`.
pub open spec fn replies_error<S>(step: Step<S>, e: OcError) -> bool {
    step matches Step::Reply(r) && reports(r, e)
}

/// What `begin` does with `command` in state `pre`: the step it gives and
/// the state it leaves.
pub open spec fn began<F, S>(
    pre: BackendView<F, S>,
    command: UiCommand,
    step: Step<S>,
    post: BackendView<F, S>,
) -> bool {
    match command {
        UiCommand::SupportedProtocols => {
            &&& post == pre
            &&& step matches Step::Reply(UiResponse::SupportedProtocols { protocols })
                && protocols@ == supported_kinds(pre.factories.dom())
        },
        UiCommand::LoadConfig => {
            &&& post == pre
            &&& step matches Step::Reply(UiResponse::Config { config }) && config@ == pre.config
        },
        UiCommand::SaveConfig { config } => {
            &&& post == pre
            &&& step matches Step::SaveConfig { path, config: c } && path@ == pre.config_path
                && c@ == normalized_config(config@)
        },
        UiCommand::Connect { profile } => post == pre && match profile_problem(profile) {
            Some(problem) => step matches Step::Reply(r) && is_error_response(
                r,
                "invalid_profile"@,
                "invalid connection profile: "@ + problem_text(problem),
            ),
            None => if pre.factories.contains_key(profile.protocol) {
                step == Step::<S>::Connect { profile }
            } else {
                step matches Step::Reply(r) && is_error_response(
                    r,
                    "unsupported_protocol"@,
                    "unsupported protocol: "@ + protocol_name(profile.protocol),
                )
            },
        },
        UiCommand::Disconnect { session_id } => if pre.sessions.contains_key(session_id) {
            &&& step == Step::Disconnect { session_id, session: pre.sessions[session_id] }
            &&& post == with_sessions(pre, pre.sessions.remove(session_id))
        } else {
            post == pre && replies_error(step, OcError::SessionNotFound(session_id))
        },
        _ => match session_request(command) {
            Some((session_id, op)) => if pre.sessions.contains_key(session_id) {
                &&& step == Step::Session { session_id, session: pre.sessions[session_id], op }
                &&& post == with_sessions(pre, pre.sessions.remove(session_id))
            } else {
                post == pre && replies_error(step, OcError::SessionNotFound(session_id))
            },
            None => false,
        },
    }
}

/// The response to a session operation that succeeded.
pub open spec fn op_response(session_id: SessionId, op: SessionOp, entries: Vec<RemoteEntry>) -> UiResponse {
    match op {
        SessionOp::ListDirectory { path } => UiResponse::Directory { session_id, path, entries },
        SessionOp::UploadFile { local_path, remote_path } => UiResponse::TransferCompleted {
            session_id,
            direction: TransferDirection::Upload,
            source: local_path,
            destination: remote_path,
        },
        SessionOp::DownloadFile { remote_path, local_path } => UiResponse::TransferCompleted {
            session_id,
            direction: TransferDirection::Download,
            source: remote_path,
            destination: local_path,
        },
        SessionOp::DeletePath { remote_path } => UiResponse::PathDeleted {
            session_id,
            remote_path,
        },
        SessionOp::RenamePath { from, to } => UiResponse::PathRenamed { session_id, from, to },
    }
}

/// The protocol registry, the open sessions, where the configuration is kept
/// and the configuration itself.
pub struct Backend<F, S> {
    registry: ProtocolRegistry<F>,
    sessions: HashMap<SessionId, S>,
    config_path: String,
    config: AppConfig,
}

impl<F, S> View for Backend<F, S> {
    type V = BackendView<F, S>;

    closed spec fn view(&self) -> BackendView<F, S> {
        BackendView {
            factories: self.registry@,
            sessions: self.sessions@,
            config_path: self.config_path@,
            config: self.config@,
        }
    }
}

/// The answer to closing a session: `Disconnected`, or the error that
/// closing it met.
pub fn disconnect_reply(session_id: SessionId, outcome: Result<(), OcError>) -> (r: UiResponse)
    ensures
        match outcome {
            Ok(()) => r == (UiResponse::Disconnected { session_id }),
            Err(e) => reports(r, e),
        },
{
    match outcome {
        Ok(()) => UiResponse::Disconnected { session_id },
        Err(e) => UiResponse::from_error(&e),
    }
}

impl<F, S> Backend<F, S> {
    /// A backend with the given protocols, no open session, and the
    /// configuration `config` kept at `config_path`.
    pub fn new(registry: ProtocolRegistry<F>, config_path: String, config: AppConfig) -> (r: Backend<F, S>)
        ensures
            r@ == (BackendView {
                factories: registry@,
                sessions: Map::<SessionId, S>::empty(),
                config_path: config_path@,
                config: config@,
            }),
    {
        Backend { registry, sessions: HashMap::new(), config_path, config }
    }

    /// The factory registered for `protocol`, if any.
    pub fn factory(&self, protocol: ProtocolKind) -> (r: Option<&F>)
        ensures
            match r {
                Some(f) => self@.factories.contains_key(protocol) && *f == self@.factories[protocol],
                None => !self@.factories.contains_key(protocol),
            },
    {
        self.registry.get(protocol)
    }

    /// Takes the session `session_id` out of the table, if it is there.
    fn take_session(&mut self, session_id: SessionId) -> (r: Option<S>)
        ensures
            match r {
                Some(s) => old(self)@.sessions.contains_key(session_id) && s == old(
                    self,
                )@.sessions[session_id] && final(self)@ == with_sessions(
                    old(self)@,
                    old(self)@.sessions.remove(session_id),
                ),
                None => !old(self)@.sessions.contains_key(session_id) && final(self)@ == old(
                    self,
                )@,
            },
    {
        let ghost before = self.sessions@;
        let taken = self.sessions.remove(&session_id);
        proof {
            if taken is None {
                assert(self.sessions@ =~= before);
            }
        }
        taken
    }

    /// Puts `session` into the table under `session_id`, replacing any
    /// session held under it.
    fn put_session(&mut self, session_id: SessionId, session: S)
        ensures
            final(self)@ == with_sessions(
                old(self)@,
                old(self)@.sessions.insert(session_id, session),
            ),
    {
        self.sessions.insert(session_id, session);
    }

    /// Decides what `command` needs. Commands that need nothing outside are
    /// answered at once; a session command takes its session out of the
    /// table until `finish_session` puts it back, and `Disconnect` takes it
    /// out for good.
    pub fn begin(&mut self, command: UiCommand) -> (step: Step<S>)
        ensures
            began(old(self)@, command, step, final(self)@),
    {
        match command {
            UiCommand::SupportedProtocols => Step::Reply(
                UiResponse::SupportedProtocols { protocols: self.registry.supported() },
            ),
            UiCommand::LoadConfig => Step::Reply(
                UiResponse::Config { config: self.config.duplicate() },
            ),
            UiCommand::SaveConfig { config } => Step::SaveConfig {
                path: self.config_path.clone(),
                config: config.normalize(),
            },
            UiCommand::Connect { profile } => {
                match profile.validate() {
                    Err(e) => {
                        return Step::Reply(UiResponse::from_error(&e));
                    },
                    Ok(()) => {},
                }
                if self.registry.contains(profile.protocol) {
                    Step::Connect { profile }
                } else {
                    let e = OcError::UnsupportedProtocol(String::from_str(profile.protocol.label()));
                    Step::Reply(UiResponse::from_error(&e))
                }
            },
            UiCommand::Disconnect { session_id } => {
                match self.take_session(session_id) {
                    Some(session) => Step::Disconnect { session_id, session },
                    None => Step::Reply(
                        UiResponse::from_error(&OcError::SessionNotFound(session_id)),
                    ),
                }
            },
            UiCommand::ListDirectory { session_id, path } => self.begin_session(
                session_id,
                SessionOp::ListDirectory { path },
            ),
            UiCommand::UploadFile { session_id, local_path, remote_path } => self.begin_session(
                session_id,
                SessionOp::UploadFile { local_path, remote_path },
            ),
            UiCommand::DownloadFile { session_id, remote_path, local_path } => self.begin_session(
                session_id,
                SessionOp::DownloadFile { remote_path, local_path },
            ),
            UiCommand::DeletePath { session_id, remote_path } => self.begin_session(
                session_id,
                SessionOp::DeletePath { remote_path },
            ),
            UiCommand::RenamePath { session_id, from, to } => self.begin_session(
                session_id,
                SessionOp::RenamePath { from, to },
            ),
        }
    }

    fn begin_session(&mut self, session_id: SessionId, op: SessionOp) -> (step: Step<S>)
        ensures
            if old(self)@.sessions.contains_key(session_id) {
                &&& step == Step::Session {
                    session_id,
                    session: old(self)@.sessions[session_id],
                    op,
                }
                &&& final(self)@ == with_sessions(
                    old(self)@,
                    old(self)@.sessions.remove(session_id),
                )
            } else {
                final(self)@ == old(self)@ && replies_error(
                    step,
                    OcError::SessionNotFound(session_id),
                )
            },
    {
        match self.take_session(session_id) {
            Some(session) => Step::Session { session_id, session, op },
            None => Step::Reply(UiResponse::from_error(&OcError::SessionNotFound(session_id))),
        }
    }

    /// Records a session that a factory opened, under `session_id`, and
    /// answers `Connected`.
    pub fn record_session(
        &mut self,
        session_id: SessionId,
        protocol: ProtocolKind,
        session: S,
        peer: String,
    ) -> (r: UiResponse)
        ensures
            r == (UiResponse::Connected { session_id, protocol, peer }),
            final(self)@ == with_sessions(
                old(self)@,
                old(self)@.sessions.insert(session_id, session),
            ),
    {
        self.put_session(session_id, session);
        UiResponse::Connected { session_id, protocol, peer }
    }

    /// Takes the outcome of connecting with `protocol`: a session and the
    /// peer it reached, recorded under a random version-4 UUID, or the error
    /// that connecting met.
    pub fn finish_connect(
        &mut self,
        protocol: ProtocolKind,
        outcome: Result<(S, String), OcError>,
    ) -> (r: UiResponse)
        ensures
            match outcome {
                Ok((session, peer)) => r matches UiResponse::Connected {
                    session_id,
                    protocol: p,
                    peer: q,
                } && p == protocol && q == peer && (session_id >> 76u128) & 0xf == 4 && (session_id
                    >> 62u128) & 0x3 == 2 && final(self)@ == with_sessions(
                    old(self)@,
                    old(self)@.sessions.insert(session_id, session),
                ),
                Err(e) => reports(r, e) && final(self)@ == old(self)@,
            },
    {
        match outcome {
            Ok((session, peer)) => {
                let session_id = new_session_id();
                self.record_session(session_id, protocol, session, peer)
            },
            Err(e) => UiResponse::from_error(&e),
        }
    }

    /// Takes the outcome of writing `config`: on success it becomes the
    /// configuration and the answer is `Success` with `config_saved`; on
    /// failure the configuration stays and the error is reported.
    pub fn finish_save(&mut self, config: AppConfig, outcome: Result<(), OcError>) -> (r: UiResponse)
        ensures
            match outcome {
                Ok(()) => {
                    &&& final(self)@ == (BackendView { config: config@, ..old(self)@ })
                    &&& r matches UiResponse::Success { message } && message@ == "config_saved"@
                },
                Err(e) => reports(r, e) && final(self)@ == old(self)@,
            },
    {
        match outcome {
            Ok(()) => {
                self.config = config;
                UiResponse::Success { message: String::from_str("config_saved") }
            },
            Err(e) => UiResponse::from_error(&e),
        }
    }

    /// Takes back the session that `begin` handed out for `op`, with the
    /// outcome of the operation, and answers: the listing, the transfer, the
    /// deletion or the renaming, or the error. The entries of the outcome
    /// matter only for a listing.
    pub fn finish_session(
        &mut self,
        session_id: SessionId,
        session: S,
        op: SessionOp,
        outcome: Result<Vec<RemoteEntry>, OcError>,
    ) -> (r: UiResponse)
        ensures
            final(self)@ == with_sessions(
                old(self)@,
                old(self)@.sessions.insert(session_id, session),
            ),
            match outcome {
                Ok(entries) => r == op_response(session_id, op, entries),
                Err(e) => reports(r, e),
            },
    {
        self.put_session(session_id, session);
        match outcome {
            Err(e) => UiResponse::from_error(&e),
            Ok(entries) => match op {
                SessionOp::ListDirectory { path } => UiResponse::Directory {
                    session_id,
                    path,
                    entries,
                },
                SessionOp::UploadFile { local_path, remote_path } => UiResponse::TransferCompleted {
                    session_id,
                    direction: TransferDirection::Upload,
                    source: local_path,
                    destination: remote_path,
                },
                SessionOp::DownloadFile { remote_path, local_path } => UiResponse::TransferCompleted {
                    session_id,
                    direction: TransferDirection::Download,
                    source: remote_path,
                    destination: local_path,
                },
                SessionOp::DeletePath { remote_path } => UiResponse::PathDeleted {
                    session_id,
                    remote_path,
                },
                SessionOp::RenamePath { from, to } => UiResponse::PathRenamed {
                    session_id,
                    from,
                    to,
                },
            },
        }
    }
}


/// A session recorded under an identifier is the one that a later command
/// naming that identifier reaches.
pub proof fn lemma_recorded_session_is_reached<F, S>(
    pre: BackendView<F, S>,
    session_id: SessionId,
    session: S,
    command: UiCommand,
    step: Step<S>,
    post: BackendView<F, S>,
)
    requires
        began(with_sessions(pre, pre.sessions.insert(session_id, session)), command, step, post),
        named_session(command) == Some(session_id),
    ensures
        match command {
            UiCommand::Disconnect { .. } => step == Step::Disconnect { session_id, session },
            _ => step matches Step::Session { session_id: id, session: s, .. } && id == session_id
                && s == session,
        },
{
}

/// An upload on a held session hands out an upload from the command's local
/// path to its remote path, and its success is answered as an upload with
/// the local path as source and the remote path as destination.
pub proof fn lemma_upload_keeps_direction<F, S>(
    pre: BackendView<F, S>,
    session_id: SessionId,
    local_path: String,
    remote_path: String,
    step: Step<S>,
    post: BackendView<F, S>,
    entries: Vec<RemoteEntry>,
)
    requires
        began(pre, UiCommand::UploadFile { session_id, local_path, remote_path }, step, post),
        pre.sessions.contains_key(session_id),
    ensures
        step matches Step::Session {
            session_id: id,
            op: SessionOp::UploadFile { local_path: from_local, remote_path: to_remote },
            ..
        } && id == session_id && from_local == local_path && to_remote == remote_path,
        step matches Step::Session { op, .. } && op_response(session_id, op, entries) matches
            UiResponse::TransferCompleted { session_id: id, direction, source, destination }
            && id == session_id && direction == TransferDirection::Upload && source == local_path
            && destination == remote_path,
{
}

/// A download on a held session hands out a download from the command's
/// remote path to its local path, and its success is answered as a download
/// with the remote path as source and the local path as destination.
pub proof fn lemma_download_keeps_direction<F, S>(
    pre: BackendView<F, S>,
    session_id: SessionId,
    remote_path: String,
    local_path: String,
    step: Step<S>,
    post: BackendView<F, S>,
    entries: Vec<RemoteEntry>,
)
    requires
        began(pre, UiCommand::DownloadFile { session_id, remote_path, local_path }, step, post),
        pre.sessions.contains_key(session_id),
    ensures
        step matches Step::Session {
            session_id: id,
            op: SessionOp::DownloadFile { remote_path: from_remote, local_path: to_local },
            ..
        } && id == session_id && from_remote == remote_path && to_local == local_path,
        step matches Step::Session { op, .. } && op_response(session_id, op, entries) matches
            UiResponse::TransferCompleted { session_id: id, direction, source, destination }
            && id == session_id && direction == TransferDirection::Download && source
            == remote_path && destination == local_path,
{
}

/// A rename on a held session asks the server to rename the command's `from`
/// to its `to`, and its success is answered with the same `from` and `to`.
pub proof fn lemma_rename_keeps_order<F, S>(
    pre: BackendView<F, S>,
    session_id: SessionId,
    from: String,
    to: String,
    step: Step<S>,
    post: BackendView<F, S>,
    entries: Vec<RemoteEntry>,
)
    requires
        began(pre, UiCommand::RenamePath { session_id, from, to }, step, post),
        pre.sessions.contains_key(session_id),
    ensures
        step matches Step::Session {
            session_id: id,
            op: SessionOp::RenamePath { from: old_name, to: new_name },
            ..
        } && id == session_id && old_name == from && new_name == to,
        step matches Step::Session { op, .. } && op_response(session_id, op, entries) matches
            UiResponse::PathRenamed { session_id: id, from: old_name, to: new_name } && id
            == session_id && old_name == from && new_name == to,
{
}

/// A deletion or a listing on a held session hands out that operation on the
/// command's path, and its success is answered with the same path.
pub proof fn lemma_single_path_kept<F, S>(
    pre: BackendView<F, S>,
    command: UiCommand,
    step: Step<S>,
    post: BackendView<F, S>,
    entries: Vec<RemoteEntry>,
)
    requires
        began(pre, command, step, post),
    ensures
        match command {
            UiCommand::DeletePath { session_id, remote_path } => pre.sessions.contains_key(
                session_id,
            ) ==> {
                &&& step matches Step::Session {
                    session_id: id,
                    op: SessionOp::DeletePath { remote_path: p },
                    ..
                } && id == session_id && p == remote_path
                &&& step matches Step::Session { op, .. } && op_response(session_id, op, entries)
                    == (UiResponse::PathDeleted { session_id, remote_path })
            },
            UiCommand::ListDirectory { session_id, path } => pre.sessions.contains_key(session_id)
                ==> {
                &&& step matches Step::Session {
                    session_id: id,
                    op: SessionOp::ListDirectory { path: p },
                    ..
                } && id == session_id && p == path
                &&& step matches Step::Session { op, .. } && op_response(session_id, op, entries)
                    == (UiResponse::Directory { session_id, path, entries })
            },
            _ => true,
        },
{
}

/// A command that names a session the backend does not hold is answered with
/// `session_not_found`, and nothing changes.
pub proof fn lemma_unknown_session_refused<F, S>(
    pre: BackendView<F, S>,
    session_id: SessionId,
    command: UiCommand,
    step: Step<S>,
    post: BackendView<F, S>,
)
    requires
        began(pre, command, step, post),
        named_session(command) == Some(session_id),
        !pre.sessions.contains_key(session_id),
    ensures
        replies_error(step, OcError::SessionNotFound(session_id)),
        post == pre,
{
}

/// Once a session is closed, every command that names it is answered with
/// `session_not_found`, and nothing changes.
pub proof fn lemma_closed_session_is_gone<F, S>(
    pre: BackendView<F, S>,
    session_id: SessionId,
    first: Step<S>,
    mid: BackendView<F, S>,
    command: UiCommand,
    second: Step<S>,
    post: BackendView<F, S>,
)
    requires
        began(pre, UiCommand::Disconnect { session_id }, first, mid),
        began(mid, command, second, post),
        named_session(command) == Some(session_id),
    ensures
        replies_error(second, OcError::SessionNotFound(session_id)),
        post == mid,
{
    assert(!mid.sessions.contains_key(session_id));
}

/// A session operation takes the session out of the table; handing it back
/// restores the table as it was, whatever the operation's outcome.
pub proof fn lemma_session_operation_restores<F, S>(
    pre: BackendView<F, S>,
    command: UiCommand,
    session_id: SessionId,
    session: S,
    op: SessionOp,
    mid: BackendView<F, S>,
)
    requires
        began(pre, command, Step::Session { session_id, session, op }, mid),
    ensures
        with_sessions(mid, mid.sessions.insert(session_id, session)) == pre,
{
    assert(pre.sessions.contains_key(session_id));
    assert(mid.sessions.insert(session_id, session) =~= pre.sessions);
}

/// After a configuration is saved, loading the configuration gives it back,
/// normalised.
pub proof fn lemma_load_after_save<F, S>(
    pre: BackendView<F, S>,
    config: AppConfig,
    first: Step<S>,
    mid: BackendView<F, S>,
    saved: ConfigView,
    second: Step<S>,
    post: BackendView<F, S>,
)
    requires
        began(pre, UiCommand::SaveConfig { config }, first, mid),
        first matches Step::SaveConfig { config: c, .. } && c@ == saved,
        began(BackendView { config: saved, ..mid }, UiCommand::LoadConfig, second, post),
    ensures
        second matches Step::Reply(UiResponse::Config { config: loaded }) && loaded@
            == normalized_config(config@),
{
}

/// A profile that breaks a rule is refused with `invalid_profile` before any
/// connection is tried, and nothing changes.
pub proof fn lemma_invalid_profile_refused<F, S>(
    pre: BackendView<F, S>,
    profile: ConnectionProfile,
    step: Step<S>,
    post: BackendView<F, S>,
)
    requires
        began(pre, UiCommand::Connect { profile }, step, post),
        profile_problem(profile) is Some,
    ensures
        post == pre,
        step matches Step::Reply(r) && r matches UiResponse::Error { code, .. } && code@
            == "invalid_profile"@,
{
}

} // verus!
