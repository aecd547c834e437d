//! The decisions of the `oc` command line: which saved connection a name
//! means, which names complete a prefix, and the shell completion scripts.

use vstd::prelude::*;
use vstd::string::*;
use crate::sftp::{join_texts, joined_with};
use crate::text::{
    eq_ignore_ascii_case, has_prefix, lowercase, same_ignoring_ascii_case, starts_with,
    to_lowercase,
};
use crate::command::UiResponse;
use crate::types::SavedConnection;

verus! {

/// The names of the connections, in order, whose name passes `keep`.
pub open spec fn names_where(
    connections: Seq<SavedConnection>,
    keep: spec_fn(Seq<char>) -> bool,
) -> Seq<Seq<char>>
    decreases connections.len(),
{
    if connections.len() == 0 {
        seq![]
    } else {
        let rest = names_where(connections.drop_last(), keep);
        if keep(connections.last().name@) {
            rest.push(connections.last().name@)
        } else {
            rest
        }
    }
}

/// The names offered for a query that names no connection: those whose
/// lowercase form starts with the lowercase query.
pub open spec fn suggestions(connections: Seq<SavedConnection>, query: Seq<char>) -> Seq<Seq<char>> {
    names_where(connections, |name: Seq<char>| has_prefix(lowercase(name), lowercase(query)))
}

/// The message for a query that names no connection, with the suggestions
/// where there are any.
pub open spec fn not_found_text(query: Seq<char>, offered: Seq<Seq<char>>) -> Seq<char> {
    if offered.len() == 0 {
        "connection '"@ + query + "' not found. Use `oc ls` to list names."@
    } else {
        "connection '"@ + query + "' not found. Did you mean: "@ + joined_with(offered, ", "@)
    }
}

/// The connection a name means: the first whose name equals the query up
/// to ASCII case; otherwise an error that suggests the names starting with
/// the query (compared in lowercase), or points to `oc ls`.
pub fn resolve_connection<'a>(connections: &'a [SavedConnection], query: &str) -> (r: Result<
    &'a SavedConnection,
    String,
>)
    ensures
        match r {
            Ok(c) => exists|i: int|
                0 <= i < connections@.len() && same_ignoring_ascii_case(
                    #[trigger] connections@[i].name@,
                    query@,
                ) && *c == connections@[i] && forall|j: int|
                    0 <= j < i ==> !same_ignoring_ascii_case(
                        #[trigger] connections@[j].name@,
                        query@,
                    ),
            Err(message) => (forall|i: int|
                0 <= i < connections@.len() ==> !same_ignoring_ascii_case(
                    #[trigger] connections@[i].name@,
                    query@,
                )) && message@ == not_found_text(query@, suggestions(connections@, query@)),
        },
{
    let mut i: usize = 0;
    while i < connections.len()
        invariant
            i <= connections@.len(),
            forall|j: int|
                0 <= j < i ==> !same_ignoring_ascii_case(#[trigger] connections@[j].name@, query@),
        decreases connections.len() - i,
    {
        if eq_ignore_ascii_case(connections[i].name.as_str(), query) {
            return Ok(&connections[i]);
        }
        i = i + 1;
    }
    let query_lower = to_lowercase(query);
    let mut offered: Vec<String> = Vec::new();
    let mut k: usize = 0;
    assert(connections@.subrange(0, 0) =~= Seq::<SavedConnection>::empty());
    while k < connections.len()
        invariant
            k <= connections@.len(),
            query_lower@ == lowercase(query@),
            offered@.map_values(|s: String| s@) == suggestions(
                connections@.subrange(0, k as int),
                query@,
            ),
        decreases connections.len() - k,
    {
        let name_lower = to_lowercase(connections[k].name.as_str());
        let ghost next = connections@.subrange(0, k + 1);
        assert(next.drop_last() =~= connections@.subrange(0, k as int));
        if starts_with(name_lower.as_str(), query_lower.as_str()) {
            let ghost before = offered@;
            offered.push(connections[k].name.clone());
            assert(offered@.map_values(|s: String| s@) =~= before.map_values(|s: String| s@).push(
                connections@[k as int].name@,
            ));
        }
        k = k + 1;
    }
    assert(connections@.subrange(0, connections@.len() as int) =~= connections@);
    let mut message = String::from_str("connection '");
    message.append(query);
    if offered.len() == 0 {
        message.append("' not found. Use `oc ls` to list names.");
    } else {
        message.append("' not found. Did you mean: ");
        let listed = join_texts(&offered, ", ");
        message.append(listed.as_str());
    }
    Err(message)
}

/// The names offered to complete a prefix: all, where the lowercase prefix
/// is empty (or no prefix is given), else those whose lowercase form starts
/// with it.
pub open spec fn completed_names(
    connections: Seq<SavedConnection>,
    prefix: Option<Seq<char>>,
) -> Seq<Seq<char>> {
    let p = lowercase(
        match prefix {
            Some(t) => t,
            None => seq![],
        },
    );
    names_where(connections, |name: Seq<char>| p.len() == 0 || has_prefix(lowercase(name), p))
}

/// The names that complete a prefix, in the order they are saved.
pub fn completion_names(connections: &[SavedConnection], prefix: Option<String>) -> (r: Vec<String>)
    ensures
        r@.map_values(|s: String| s@) == completed_names(
            connections@,
            match prefix {
                Some(t) => Some(t@),
                None => None,
            },
        ),
{
    let given = match prefix {
        Some(t) => t,
        None => String::new(),
    };
    let p = to_lowercase(given.as_str());
    let everything = p.as_str().is_empty();
    let mut names: Vec<String> = Vec::new();
    let mut k: usize = 0;
    assert(connections@.subrange(0, 0) =~= Seq::<SavedConnection>::empty());
    while k < connections.len()
        invariant
            k <= connections@.len(),
            everything == (p@.len() == 0),
            p@ == lowercase(given@),
            names@.map_values(|s: String| s@) == names_where(
                connections@.subrange(0, k as int),
                |name: Seq<char>| p@.len() == 0 || has_prefix(lowercase(name), p@),
            ),
        decreases connections.len() - k,
    {
        let keep = if everything {
            true
        } else {
            let name_lower = to_lowercase(connections[k].name.as_str());
            starts_with(name_lower.as_str(), p.as_str())
        };
        let ghost next = connections@.subrange(0, k + 1);
        assert(next.drop_last() =~= connections@.subrange(0, k as int));
        if keep {
            let ghost before = names@;
            names.push(connections[k].name.clone());
            assert(names@.map_values(|s: String| s@) =~= before.map_values(|s: String| s@).push(
                connections@[k as int].name@,
            ));
        }
        k = k + 1;
    }
    assert(connections@.subrange(0, connections@.len() as int) =~= connections@);
    names
}

/// The saved connections in the backend's answer to loading the
/// configuration, or why there are none (`shown` is how the frontend prints
/// an unexpected answer).
pub fn connections_from(response: UiResponse, shown: &str) -> (r: Result<Vec<SavedConnection>, String>)
    ensures
        match response {
            UiResponse::Config { config } => r == Ok::<Vec<SavedConnection>, String>(
                config.connections,
            ),
            UiResponse::Error { message, .. } => r matches Err(m) && m@ == "could not load config: "@
                + message@,
            _ => r matches Err(m) && m@ == "unexpected backend response: "@ + shown@,
        },
{
    match response {
        UiResponse::Config { config } => Ok(config.connections),
        UiResponse::Error { message, .. } => {
            let mut m = String::from_str("could not load config: ");
            m.append(message.as_str());
            Err(m)
        },
        _ => {
            let mut m = String::from_str("unexpected backend response: ");
            m.append(shown);
            Err(m)
        },
    }
}

/// The shells that `oc completion` writes scripts for.
#[derive(Debug, Clone, Copy, PartialEq, Eq, Structural)]
pub enum Shell {
    Bash,
    Zsh,
}

/// The zsh completion script.
pub open spec fn zsh_completion() -> Seq<char> {
    "#compdef oc

_oc() {
  local state
  typeset -a commands
  commands=(
    \"ls:List saved connections\"
    \"connect:Open ratatui and auto-connect\"
    \"completion:Print shell completion script\"
  )

  if (( CURRENT == 2 )); then
    _describe \"command\" commands
    return
  fi

  case \"$words[2]\" in
    connect)
      local -a connections
      connections=(\"${(@f)$(oc __complete_connections \"$words[CURRENT]\")}\")
      _describe \"connection\" connections
      ;;
    completion)
      _values \"shell\" \"bash\" \"zsh\"
      ;;
    *)
      _default
      ;;
  esac
}

compdef _oc oc
"@
}

/// The bash completion script.
pub open spec fn bash_completion() -> Seq<char> {
    "_oc_complete() {
  local cur prev cword
  COMPREPLY=()
  cur=\"${COMP_WORDS[COMP_CWORD]}\"
  prev=\"${COMP_WORDS[COMP_CWORD-1]}\"
  cword=$COMP_CWORD

  if [[ $cword -eq 1 ]]; then
    COMPREPLY=( $(compgen -W \"ls connect completion\" -- \"$cur\") )
    return
  fi

  case \"${COMP_WORDS[1]}\" in
    connect)
      COMPREPLY=( $(compgen -W \"$(oc __complete_connections \"$cur\")\" -- \"$cur\") )
      ;;
    completion)
      COMPREPLY=( $(compgen -W \"bash zsh\" -- \"$cur\") )
      ;;
  esac
}

complete -F _oc_complete oc
"@
}

/// The completion script for a shell, as `oc completion` prints it (a line
/// break follows it).
pub fn completion_script(shell: Shell) -> (r: &'static str)
    ensures
        r@ == match shell {
            Shell::Bash => bash_completion(),
            Shell::Zsh => zsh_completion(),
        },
{
    match shell {
        Shell::Zsh => "#compdef oc

_oc() {
  local state
  typeset -a commands
  commands=(
    \"ls:List saved connections\"
    \"connect:Open ratatui and auto-connect\"
    \"completion:Print shell completion script\"
  )

  if (( CURRENT == 2 )); then
    _describe \"command\" commands
    return
  fi

  case \"$words[2]\" in
    connect)
      local -a connections
      connections=(\"${(@f)$(oc __complete_connections \"$words[CURRENT]\")}\")
      _describe \"connection\" connections
      ;;
    completion)
      _values \"shell\" \"bash\" \"zsh\"
      ;;
    *)
      _default
      ;;
  esac
}

compdef _oc oc
",
        Shell::Bash => "_oc_complete() {
  local cur prev cword
  COMPREPLY=()
  cur=\"${COMP_WORDS[COMP_CWORD]}\"
  prev=\"${COMP_WORDS[COMP_CWORD-1]}\"
  cword=$COMP_CWORD

  if [[ $cword -eq 1 ]]; then
    COMPREPLY=( $(compgen -W \"ls connect completion\" -- \"$cur\") )
    return
  fi

  case \"${COMP_WORDS[1]}\" in
    connect)
      COMPREPLY=( $(compgen -W \"$(oc __complete_connections \"$cur\")\" -- \"$cur\") )
      ;;
    completion)
      COMPREPLY=( $(compgen -W \"bash zsh\" -- \"$cur\") )
      ;;
  esac
}

complete -F _oc_complete oc
",
    }
}

} // verus!
