//! Remote path handling shared by the protocol adapters and the file
//! navigator: normalising, joining, and taking a path apart.

use vstd::prelude::*;
use vstd::string::*;
use crate::error::OcError;
use crate::text::{
    blank, chars_of, is_blank, lemma_trimmed_ends, lemma_trimmed_idempotent, lemma_trimmed_whole,
    same_text, trim, trimmed,
};

verus! {

/// The root path `/`.
pub open spec fn root() -> Seq<char> {
    seq!['/']
}

/// A remote path made absolute: the path without surrounding white space,
/// with a `/` in front where it has none, or `/` where nothing is left.
pub open spec fn normalized_remote(path: Seq<char>) -> Seq<char> {
    let t = trimmed(path);
    if t.len() == 0 {
        root()
    } else if t[0] == '/' {
        t
    } else {
        root() + t
    }
}

/// Making a path absolute twice gives what making it absolute once gives.
pub proof fn lemma_normalized_remote_idempotent(path: Seq<char>)
    ensures
        normalized_remote(normalized_remote(path)) == normalized_remote(path),
{
    let t = trimmed(path);
    lemma_trimmed_ends(path);
    lemma_trimmed_idempotent(path);
    let n = normalized_remote(path);
    if t.len() == 0 {
        lemma_trimmed_whole(root());
    } else if t[0] == '/' {
    } else {
        assert(n[0] == '/');
        assert(n.last() == t.last());
        lemma_trimmed_whole(n);
    }
}

/// `s` without the `c` characters at its end.
pub open spec fn strip_trailing(s: Seq<char>, c: char) -> Seq<char>
    decreases s.len(),
{
    if s.len() > 0 && s.last() == c {
        strip_trailing(s.drop_last(), c)
    } else {
        s
    }
}

/// The position of the last `c` in `s`, if there is one.
pub open spec fn last_index_of(s: Seq<char>, c: char) -> Option<int>
    decreases s.len(),
{
    if s.len() == 0 {
        None
    } else if s.last() == c {
        Some(s.len() - 1)
    } else {
        last_index_of(s.drop_last(), c)
    }
}

/// The path of `name` inside directory `dir`.
pub open spec fn joined_remote(dir: Seq<char>, name: Seq<char>) -> Seq<char> {
    if dir == root() {
        root() + name
    } else {
        strip_trailing(dir, '/') + root() + name
    }
}

/// `base` extended by `p` as `Path::join` extends it: an absolute `p`
/// replaces `base`; otherwise a `/` separates them unless `base` is empty or
/// already ends with one.
pub open spec fn path_joined(base: Seq<char>, p: Seq<char>) -> Seq<char> {
    if p.len() > 0 && p[0] == '/' {
        p
    } else if base.len() > 0 && base.last() != '/' {
        base + root() + p
    } else {
        base + p
    }
}

/// The `/` path as a string.
pub fn root_path() -> (r: String)
    ensures
        r@ == root(),
{
    proof {
        reveal_strlit("/");
    }
    String::from_str("/")
}

/// Makes a remote path absolute: trimmed, with a leading `/`, or `/` for a
/// blank path.
pub fn normalize_remote_path(path: &str) -> (r: String)
    ensures
        r@ == normalized_remote(path@),
{
    let t = trim(path);
    if t.as_str().is_empty() {
        return root_path();
    }
    let first = t.as_str().get_char(0);
    if first == '/' {
        t
    } else {
        let mut r = root_path();
        r.append(t.as_str());
        r
    }
}

/// `s` without the `c` characters at its end, as `str::trim_end_matches`
/// gives it for a single character.
pub fn trim_end_char(s: &str, c: char) -> (r: String)
    ensures
        r@ == strip_trailing(s@, c),
{
    let v = chars_of(s);
    let mut hi: usize = v.len();
    assert(s@.subrange(0, hi as int) =~= s@);
    while hi > 0 && v[hi - 1] == c
        invariant
            v@ == s@,
            hi <= v.len(),
            strip_trailing(s@, c) == strip_trailing(s@.subrange(0, hi as int), c),
        decreases hi,
    {
        let ghost t = s@.subrange(0, hi as int);
        assert(t.drop_last() =~= s@.subrange(0, hi - 1));
        hi = hi - 1;
    }
    s.substring_char(0, hi).to_owned()
}

/// The position of the last `c` in `s`, as `str::rfind` finds it (counted in
/// characters).
pub fn rfind_char(s: &str, c: char) -> (r: Option<usize>)
    ensures
        match r {
            Some(i) => last_index_of(s@, c) == Some(i as int),
            None => last_index_of(s@, c) is None,
        },
{
    let v = chars_of(s);
    let mut hi: usize = v.len();
    assert(s@.subrange(0, hi as int) =~= s@);
    while hi > 0
        invariant
            v@ == s@,
            hi <= v.len(),
            last_index_of(s@, c) == last_index_of(s@.subrange(0, hi as int), c),
        decreases hi,
    {
        let ghost t = s@.subrange(0, hi as int);
        if v[hi - 1] == c {
            return Some(hi - 1);
        }
        assert(t.drop_last() =~= s@.subrange(0, hi - 1));
        hi = hi - 1;
    }
    None
}

/// The path of `name` inside directory `dir`.
pub fn join_remote_path(dir: &str, name: &str) -> (r: String)
    ensures
        r@ == joined_remote(dir@, name@),
{
    let root = root_path();
    if same_text(dir, root.as_str()) {
        let mut r = root;
        r.append(name);
        r
    } else {
        let mut r = trim_end_char(dir, '/');
        r.append("/");
        proof {
            reveal_strlit("/");
        }
        r.append(name);
        r
    }
}

/// `base` extended by `p`, as `Path::join` does it.
pub fn path_join(base: &str, p: &str) -> (r: String)
    ensures
        r@ == path_joined(base@, p@),
{
    proof {
        reveal_strlit("/");
    }
    if p.unicode_len() > 0 && p.get_char(0) == '/' {
        return p.to_owned();
    }
    let n = base.unicode_len();
    let mut r = base.to_owned();
    if n > 0 && base.get_char(n - 1) != '/' {
        r.append("/");
    }
    r.append(p);
    r
}

/// The message of the error that a blank required field gives.
pub open spec fn empty_field_text(field: Seq<char>) -> Seq<char> {
    field + " cannot be empty for this operation"@
}

/// Refuses a blank value for a field that an operation needs.
pub fn ensure_non_empty(value: &str, field: &str) -> (r: Result<(), OcError>)
    ensures
        if is_blank(value@) {
            r matches Err(OcError::InvalidCommand(m)) && m@ == empty_field_text(field@)
        } else {
            r is Ok
        },
{
    if blank(value) {
        let mut m = field.to_owned();
        m.append(" cannot be empty for this operation");
        Err(OcError::InvalidCommand(m))
    } else {
        Ok(())
    }
}

/// What `Path::file_name` gives for a path: its last component unless that
/// is `..` or there is none (a function of the text alone).
pub uninterp spec fn path_file_name(path: Seq<char>) -> Option<Seq<char>>;

/// What `Path::parent` gives for a path: the path without its last
/// component, or nothing for a root or empty path (a function of the text
/// alone).
pub uninterp spec fn path_parent(path: Seq<char>) -> Option<Seq<char>>;

/// Calls `Path::file_name` on `path` and converts the name to text. The
/// result is named: it is `path_file_name` of the argument.
#[verifier::external_body]
pub(crate) fn file_name_of(path: &str) -> (r: Option<String>)
    ensures
        match r {
            Some(name) => path_file_name(path@) == Some(name@),
            None => path_file_name(path@) is None,
        },
{
    std::path::Path::new(path).file_name().map(|s| s.to_string_lossy().to_string())
}

/// Calls `Path::parent` on `path` and converts the parent to text. The result
/// is named: it is `path_parent` of the argument.
#[verifier::external_body]
pub(crate) fn parent_of(path: &str) -> (r: Option<String>)
    ensures
        match r {
            Some(parent) => path_parent(path@) == Some(parent@),
            None => path_parent(path@) is None,
        },
{
    std::path::Path::new(path).parent().map(|p| p.to_string_lossy().to_string())
}

/// The error of a path that names no file.
pub open spec fn no_file_name_text() -> Seq<char> {
    "path must include a file name"@
}

/// The file name of a path, given what `Path::file_name` found for it: the
/// name, or an error where there is none or it is empty.
pub fn basename_from(file_name: Option<String>) -> (r: Result<String, OcError>)
    ensures
        match file_name {
            Some(name) if name@.len() > 0 => r == Ok::<String, OcError>(name),
            _ => r matches Err(OcError::InvalidCommand(m)) && m@ == no_file_name_text(),
        },
{
    match file_name {
        Some(name) => {
            if name.as_str().is_empty() {
                Err(OcError::InvalidCommand(String::from_str("path must include a file name")))
            } else {
                Ok(name)
            }
        },
        None => Err(OcError::InvalidCommand(String::from_str("path must include a file name"))),
    }
}

/// The file name of a remote path, once made absolute.
pub fn basename(path: &str) -> (r: Result<String, OcError>)
    ensures
        match path_file_name(normalized_remote(path@)) {
            Some(name) if name.len() > 0 => r matches Ok(n) && n@ == name,
            _ => r matches Err(OcError::InvalidCommand(m)) && m@ == no_file_name_text(),
        },
{
    let normalized = normalize_remote_path(path);
    basename_from(file_name_of(normalized.as_str()))
}

/// The directory a remote path lies in, given what `Path::parent` found for
/// it: `/` where there is none or it is empty, the parent where it is
/// absolute, and the parent with a `/` in front otherwise.
pub open spec fn parent_dir_text(parent: Option<Seq<char>>) -> Seq<char> {
    match parent {
        None => root(),
        Some(p) => if p.len() == 0 {
            root()
        } else if p[0] == '/' {
            p
        } else {
            root() + p
        },
    }
}

/// The directory a remote path lies in, given what `Path::parent` found.
pub fn parent_dir_from(parent: Option<String>) -> (r: String)
    ensures
        r@ == parent_dir_text(
            match parent {
                Some(p) => Some(p@),
                None => None,
            },
        ),
{
    match parent {
        None => root_path(),
        Some(p) => {
            if p.as_str().is_empty() {
                root_path()
            } else if p.as_str().get_char(0) == '/' {
                p
            } else {
                let mut r = root_path();
                r.append(p.as_str());
                r
            }
        },
    }
}

/// The directory that a remote path, once made absolute, lies in.
pub fn parent_remote_dir(path: &str) -> (r: String)
    ensures
        r@ == parent_dir_text(path_parent(normalized_remote(path@))),
{
    let normalized = normalize_remote_path(path);
    parent_dir_from(parent_of(normalized.as_str()))
}

} // verus!
