//! The FTP adapter's decisions: which profiles it accepts, what it asks of
//! the server for each operation, and how it reads a directory listing. The
//! network work itself is done by the frontend with an FTP client.

use vstd::prelude::*;
use vstd::string::*;
use crate::error::OcError;
use crate::remote_path::{
    basename, empty_field_text, ensure_non_empty, join_remote_path, joined_remote,
    no_file_name_text, normalize_remote_path, normalized_remote, parent_dir_text,
    parent_remote_dir, path_file_name, path_parent,
};
use crate::text::is_blank;
use crate::types::{
    problem_text, profile_problem, socket_address, ConnectionProfile, ConnectionSecurity,
    ProtocolKind, RemoteEntry, RemoteEntryKind,
};

verus! {

/// Opens FTP sessions.
pub struct FtpProtocolFactory;

/// What connecting to an FTP server takes: the address, the transfer mode,
/// and the credentials to log in with.
pub struct FtpConnectPlan {
    pub address: String,
    pub passive_mode: bool,
    pub username: String,
    pub password: String,
}

/// Why the FTP adapter refuses a profile before connecting: the text of the
/// `InvalidProfile` error.
pub open spec fn ftp_refusal(p: ConnectionProfile) -> Option<Seq<char>> {
    match profile_problem(p) {
        Some(problem) => Some(problem_text(problem)),
        None => if p.protocol != ProtocolKind::Ftp {
            Some("FTP factory received a non-FTP profile"@)
        } else {
            None
        },
    }
}

impl FtpProtocolFactory {
    /// The FTP factory.
    pub fn new() -> (r: FtpProtocolFactory) {
        FtpProtocolFactory
    }

    /// The protocol this factory opens.
    pub fn kind(&self) -> (r: ProtocolKind)
        ensures
            r == ProtocolKind::Ftp,
    {
        ProtocolKind::Ftp
    }

    /// The protocol's display name.
    pub fn display_name(&self) -> (r: &'static str)
        ensures
            r@ == "FTP"@,
    {
        "FTP"
    }

    /// Checks a profile for FTP and says how to connect: to `host:port`, in
    /// passive or active mode as the profile says, logging in with its user
    /// name and password. A profile that breaks a rule of `validate`, or is
    /// not an FTP profile, is refused with `InvalidProfile`.
    pub fn plan_connect(&self, profile: &ConnectionProfile) -> (r: Result<FtpConnectPlan, OcError>)
        ensures
            match ftp_refusal(*profile) {
                Some(text) => r matches Err(OcError::InvalidProfile(m)) && m@ == text,
                None => r matches Ok(plan) && {
                    &&& plan.address@ == socket_address(*profile)
                    &&& plan.passive_mode == profile.passive_mode
                    &&& plan.username == profile.username
                    &&& profile.password == Some(plan.password)
                },
            },
    {
        match profile.validate() {
            Err(e) => {
                return Err(e);
            },
            Ok(()) => {},
        }
        if profile.protocol != ProtocolKind::Ftp {
            return Err(
                OcError::InvalidProfile(String::from_str("FTP factory received a non-FTP profile")),
            );
        }
        if profile.security != ConnectionSecurity::PlainText {
            return Err(
                OcError::InvalidProfile(String::from_str("FTP only accepts plain_text security")),
            );
        }
        let password = match &profile.password {
            Some(p) => p.clone(),
            None => {
                return Err(
                    OcError::InvalidProfile(String::from_str("FTP requires password credentials")),
                );
            },
        };
        Ok(
            FtpConnectPlan {
                address: profile.socket_addr(),
                passive_mode: profile.passive_mode,
                username: profile.username.clone(),
                password,
            },
        )
    }
}

/// What an FTP session remembers besides its connection: the peer it
/// reached and the directory it is in.
pub struct FtpSession {
    pub peer: String,
    pub cwd: String,
}

/// Where a transfer goes on the server: the directory to change into and
/// the file name there.
pub struct TransferPlan {
    pub remote_dir: String,
    pub remote_name: String,
}

/// The transfer plan for a remote path, or why there is none.
pub open spec fn transfer_target(remote: Seq<char>) -> Option<(Seq<char>, Seq<char>)> {
    match path_file_name(normalized_remote(remote)) {
        Some(name) if name.len() > 0 => Some(
            (parent_dir_text(path_parent(normalized_remote(remote))), name),
        ),
        _ => None,
    }
}

/// `r` is the transfer plan that the first path names, after the two paths
/// were checked in the given order.
pub open spec fn planned_transfer(
    r: Result<TransferPlan, OcError>,
    first: Seq<char>,
    first_field: Seq<char>,
    second: Seq<char>,
    second_field: Seq<char>,
    remote: Seq<char>,
) -> bool {
    if is_blank(first) {
        r matches Err(OcError::InvalidCommand(m)) && m@ == empty_field_text(first_field)
    } else if is_blank(second) {
        r matches Err(OcError::InvalidCommand(m)) && m@ == empty_field_text(second_field)
    } else {
        match transfer_target(remote) {
            Some((dir, name)) => r matches Ok(plan) && plan.remote_dir@ == dir
                && plan.remote_name@ == name,
            None => r matches Err(OcError::InvalidCommand(m)) && m@ == no_file_name_text(),
        }
    }
}

fn plan_transfer(remote_path: &str) -> (r: Result<TransferPlan, OcError>)
    ensures
        match transfer_target(remote_path@) {
            Some((dir, name)) => r matches Ok(plan) && plan.remote_dir@ == dir
                && plan.remote_name@ == name,
            None => r matches Err(OcError::InvalidCommand(m)) && m@ == no_file_name_text(),
        },
{
    let remote_name = match basename(remote_path) {
        Ok(name) => name,
        Err(e) => {
            return Err(e);
        },
    };
    let remote_dir = parent_remote_dir(remote_path);
    Ok(TransferPlan { remote_dir, remote_name })
}

/// One line of a directory listing as the FTP client's list parser read it.
pub struct ListedFile {
    pub name: String,
    pub is_directory: bool,
    pub is_symlink: bool,
    pub size: u64,
    pub modified_secs: Option<u64>,
}

/// What the FTP client's list parser reads from a line of `LIST` output, once
/// it reads the line: the name, whether it is a directory, whether it is a
/// symbolic link, and the size. These come from the line's own fields.
pub uninterp spec fn listed_parts(line: Seq<char>) -> (Seq<char>, bool, bool, u64);

/// Calls `suppaftp::list::File::try_from` on a line of `LIST` output and
/// hands out the parts the adapter uses, the modification time in seconds
/// since the Unix epoch. The parser reads POSIX and DOS listings; for a POSIX
/// date without a year it takes the current year, so whether a line parses,
/// and its time, also depend on the clock and are not tied to the line here.
/// What holds of every outcome: a line that parses gives the name, kinds and
/// size that its fields fix (named `listed_parts`), and an entry is not both
/// a directory and a symbolic link.
#[verifier::external_body]
pub(crate) fn parse_list_line(line: &String) -> (r: Option<ListedFile>)
    ensures
        r matches Some(f) ==> listed_parts(line@) == (f.name@, f.is_directory, f.is_symlink, f.size)
            && !(f.is_directory && f.is_symlink),
{
    suppaftp::list::File::try_from(line.as_str()).ok().map(
        |f|
            ListedFile {
                name: f.name().to_owned(),
                is_directory: f.is_directory(),
                is_symlink: f.is_symlink(),
                size: f.size() as u64,
                modified_secs: f.modified().duration_since(std::time::UNIX_EPOCH).ok().map(
                    |d| d.as_secs(),
                ),
            },
    )
}

/// `r` is an outcome that the FTP client's list parser gave for `line`, as
/// `parse_list_line` hands it out.
pub closed spec fn parser_outcome(line: String, r: Option<ListedFile>) -> bool {
    call_ensures(parse_list_line, (&line,), r)
}

/// What an outcome of the list parser tells of its line: a line that parses
/// gives the name, kinds and size that its fields fix, and no entry is both a
/// directory and a symbolic link.
pub proof fn lemma_parser_outcome(line: String, r: Option<ListedFile>)
    requires
        parser_outcome(line, r),
    ensures
        r matches Some(f) ==> listed_parts(line@) == (f.name@, f.is_directory, f.is_symlink, f.size)
            && !(f.is_directory && f.is_symlink),
{
}

/// The kind of entry that a parsed listing line describes.
pub open spec fn listed_kind(f: ListedFile) -> RemoteEntryKind {
    if f.is_directory {
        RemoteEntryKind::Directory
    } else if f.is_symlink {
        RemoteEntryKind::Symlink
    } else {
        RemoteEntryKind::File
    }
}

/// `e` is the entry that a parsed listing line gives inside directory `dir`.
pub open spec fn is_listed_entry(e: RemoteEntry, dir: Seq<char>, f: ListedFile) -> bool {
    &&& e.name == f.name
    &&& e.path@ == joined_remote(dir, f.name@)
    &&& e.kind == listed_kind(f)
    &&& e.size == f.size
    &&& e.modified_unix == match f.modified_secs {
        Some(s) => if s <= i64::MAX {
            Some(s as i64)
        } else {
            None
        },
        None => None,
    }
}

/// The entry that a parsed listing line gives inside directory `dir`.
pub fn listed_entry(dir: &str, f: ListedFile) -> (r: RemoteEntry)
    ensures
        is_listed_entry(r, dir@, f),
{
    let path = join_remote_path(dir, f.name.as_str());
    let kind = if f.is_directory {
        RemoteEntryKind::Directory
    } else if f.is_symlink {
        RemoteEntryKind::Symlink
    } else {
        RemoteEntryKind::File
    };
    let modified_unix = match f.modified_secs {
        Some(s) => if s <= 0x7fff_ffff_ffff_ffff {
            Some(s as i64)
        } else {
            None
        },
        None => None,
    };
    RemoteEntry { name: f.name, path, kind, size: f.size, modified_unix }
}

/// The parsed lines of a listing, in order, skipping those the parser did
/// not read.
pub open spec fn parsed_only(files: Seq<Option<ListedFile>>) -> Seq<ListedFile>
    decreases files.len(),
{
    if files.len() == 0 {
        seq![]
    } else {
        let rest = parsed_only(files.drop_last());
        match files.last() {
            Some(f) => rest.push(f),
            None => rest,
        }
    }
}

/// The entries of directory `dir` from the parser's reading of each line:
/// the lines it read, in order; the others are skipped.
pub fn entries_from_listing(dir: &str, files: Vec<Option<ListedFile>>) -> (r: Vec<RemoteEntry>)
    ensures
        r@.len() == parsed_only(files@).len(),
        forall|i: int|
            0 <= i < r@.len() ==> is_listed_entry(#[trigger] r@[i], dir@, parsed_only(files@)[i]),
{
    let mut files = files;
    let ghost all = files@;
    let mut out: Vec<RemoteEntry> = Vec::new();
    let n = files.len();
    // Walk the lines from the first one: reverse, then pop.
    let mut reversed: Vec<Option<ListedFile>> = Vec::new();
    while files.len() > 0
        invariant
            reversed@ + files@.reverse() =~= all.reverse(),
            all.len() == n,
        decreases files.len(),
    {
        let ghost before = files@;
        let last = files.pop().unwrap();
        assert(before == files@.push(last));
        assert(before.reverse() =~= seq![last] + files@.reverse());
        reversed.push(last);
    }
    assert(reversed@ =~= all.reverse());
    let mut k: usize = 0;
    while reversed.len() > 0
        invariant
            k + reversed@.len() == all.len(),
            all.len() == n,
            reversed@ =~= all.subrange(k as int, all.len() as int).reverse(),
            out@.len() == parsed_only(all.subrange(0, k as int)).len(),
            forall|i: int|
                0 <= i < out@.len() ==> is_listed_entry(
                    #[trigger] out@[i],
                    dir@,
                    parsed_only(all.subrange(0, k as int))[i],
                ),
        decreases reversed.len(),
    {
        let ghost before = reversed@;
        let item = reversed.pop().unwrap();
        assert(item == all[k as int]);
        let ghost prefix = all.subrange(0, k + 1);
        assert(prefix.drop_last() =~= all.subrange(0, k as int));
        assert(prefix.last() == item);
        match item {
            Some(f) => {
                let e = listed_entry(dir, f);
                out.push(e);
            },
            None => {},
        }
        k = k + 1;
        assert(reversed@ =~= all.subrange(k as int, all.len() as int).reverse());
    }
    assert(all.subrange(0, k as int) =~= all);
    out
}

/// Reads a directory listing of `dir`: each line goes through the FTP
/// client's list parser, and the lines it reads become entries, in order.
/// The entries are those that `entries_from_listing` makes of the parser's
/// outcome for each line, line `i` handed to it as it stands; so every entry
/// lies in `dir` under its name, and there are at most as many entries as
/// lines.
pub fn list_entries(dir: &str, lines: &Vec<String>) -> (r: Vec<RemoteEntry>)
    ensures
        r@.len() <= lines@.len(),
        exists|files: Seq<Option<ListedFile>>|
            #![trigger parsed_only(files)]
            files.len() == lines@.len() && (forall|j: int|
                0 <= j < lines@.len() ==> parser_outcome(lines@[j], #[trigger] files[j]))
                && r@.len() == parsed_only(files).len() && (forall|i: int|
                0 <= i < r@.len() ==> is_listed_entry(
                    #[trigger] r@[i],
                    dir@,
                    parsed_only(files)[i],
                )),
        forall|i: int|
            0 <= i < r@.len() ==> (#[trigger] r@[i]).path@ == joined_remote(dir@, r@[i].name@),
{
    let mut files: Vec<Option<ListedFile>> = Vec::new();
    let mut i: usize = 0;
    while i < lines.len()
        invariant
            i <= lines@.len(),
            files@.len() == i,
            forall|j: int|
                0 <= j < i ==> parser_outcome(lines@[j], #[trigger] files@[j]),
        decreases lines.len() - i,
    {
        files.push(parse_list_line(&lines[i]));
        i = i + 1;
    }
    let ghost parsed = files@;
    proof {
        lemma_parsed_only_len(parsed);
    }
    let r = entries_from_listing(dir, files);
    assert(r@.len() == parsed_only(parsed).len());
    r
}

proof fn lemma_parsed_only_len(files: Seq<Option<ListedFile>>)
    ensures
        parsed_only(files).len() <= files.len(),
    decreases files.len(),
{
    if files.len() > 0 {
        lemma_parsed_only_len(files.drop_last());
    }
}

impl FtpSession {
    /// A session that reached `peer` and starts at `/`.
    pub fn new(peer: String) -> (r: FtpSession)
        ensures
            r.peer == peer,
            r.cwd@ == seq!['/'],
    {
        FtpSession { peer, cwd: crate::remote_path::root_path() }
    }

    /// The peer the session reached.
    pub fn peer(&self) -> (r: String)
        ensures
            r == self.peer,
    {
        self.peer.clone()
    }

    /// The directory that listing `path` changes into: the path made
    /// absolute. The session remembers it as its current directory.
    pub fn enter_listing(&mut self, path: &str) -> (r: String)
        ensures
            r@ == normalized_remote(path@),
            final(self).cwd@ == r@,
            final(self).peer == old(self).peer,
    {
        let normalized = normalize_remote_path(path);
        self.cwd = normalized.clone();
        normalized
    }

    /// Checks an upload of `local_path` to `remote_path` and says where on
    /// the server it goes; the session's current directory becomes that
    /// directory.
    pub fn plan_upload(&mut self, local_path: &str, remote_path: &str) -> (r: Result<
        TransferPlan,
        OcError,
    >)
        ensures
            planned_transfer(
                r,
                local_path@,
                "local_path"@,
                remote_path@,
                "remote_path"@,
                remote_path@,
            ),
            r matches Ok(plan) ==> final(self).cwd@ == plan.remote_dir@,
            r is Err ==> final(self).cwd == old(self).cwd,
            final(self).peer == old(self).peer,
    {
        match ensure_non_empty(local_path, "local_path") {
            Err(e) => {
                return Err(e);
            },
            Ok(()) => {},
        }
        match ensure_non_empty(remote_path, "remote_path") {
            Err(e) => {
                return Err(e);
            },
            Ok(()) => {},
        }
        let plan = plan_transfer(remote_path);
        match &plan {
            Ok(p) => {
                self.cwd = p.remote_dir.clone();
            },
            Err(_) => {},
        }
        plan
    }

    /// Checks a download of `remote_path` to `local_path` and says where on
    /// the server it comes from; the session's current directory becomes
    /// that directory.
    pub fn plan_download(&mut self, remote_path: &str, local_path: &str) -> (r: Result<
        TransferPlan,
        OcError,
    >)
        ensures
            planned_transfer(
                r,
                remote_path@,
                "remote_path"@,
                local_path@,
                "local_path"@,
                remote_path@,
            ),
            r matches Ok(plan) ==> final(self).cwd@ == plan.remote_dir@,
            r is Err ==> final(self).cwd == old(self).cwd,
            final(self).peer == old(self).peer,
    {
        match ensure_non_empty(remote_path, "remote_path") {
            Err(e) => {
                return Err(e);
            },
            Ok(()) => {},
        }
        match ensure_non_empty(local_path, "local_path") {
            Err(e) => {
                return Err(e);
            },
            Ok(()) => {},
        }
        let plan = plan_transfer(remote_path);
        match &plan {
            Ok(p) => {
                self.cwd = p.remote_dir.clone();
            },
            Err(_) => {},
        }
        plan
    }

    /// Checks a deletion and says which path to remove: the path made
    /// absolute.
    pub fn plan_delete(&self, remote_path: &str) -> (r: Result<String, OcError>)
        ensures
            if is_blank(remote_path@) {
                r matches Err(OcError::InvalidCommand(m)) && m@ == empty_field_text(
                    "remote_path"@,
                )
            } else {
                r matches Ok(target) && target@ == normalized_remote(remote_path@)
            },
    {
        match ensure_non_empty(remote_path, "remote_path") {
            Err(e) => Err(e),
            Ok(()) => Ok(normalize_remote_path(remote_path)),
        }
    }

    /// Checks a renaming: neither path may be blank.
    pub fn check_rename(&self, from: &str, to: &str) -> (r: Result<(), OcError>)
        ensures
            if is_blank(from@) {
                r matches Err(OcError::InvalidCommand(m)) && m@ == empty_field_text("from"@)
            } else if is_blank(to@) {
                r matches Err(OcError::InvalidCommand(m)) && m@ == empty_field_text("to"@)
            } else {
                r is Ok
            },
    {
        match ensure_non_empty(from, "from") {
            Err(e) => Err(e),
            Ok(()) => ensure_non_empty(to, "to"),
        }
    }
}

} // verus!
