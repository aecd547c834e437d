//! Where the shared configuration file lives.

use vstd::prelude::*;
use vstd::string::*;
use crate::remote_path::{path_join, path_joined};
use crate::sftp::opt_view;
use crate::error::OcError;
use crate::text::{trim, trimmed};
use crate::types::{default_editor_text, AppConfig, ConfigView};

verus! {

/// The home directory from the `HOME` variable: its value without
/// surrounding white space, unless that leaves nothing.
pub open spec fn home_from(home_var: Option<Seq<char>>) -> Option<Seq<char>> {
    match home_var {
        Some(h) => if trimmed(h).len() == 0 {
            None
        } else {
            Some(trimmed(h))
        },
        None => None,
    }
}

/// The directory that holds per-user configuration: `Library/Application
/// Support` in the home directory on macOS, `.config` in it elsewhere, and
/// `.` without a home directory.
pub open spec fn config_root(home_var: Option<Seq<char>>, macos: bool) -> Seq<char> {
    match home_from(home_var) {
        Some(h) => if macos {
            path_joined(path_joined(h, "Library"@), "Application Support"@)
        } else {
            path_joined(h, ".config"@)
        },
        None => seq!['.'],
    }
}

/// Where the configuration file is: the override path when it is set and
/// not blank, else `ostrich-connect/config.json` in `XDG_CONFIG_HOME` (when
/// set and not blank) or in the per-user configuration directory.
pub open spec fn config_location(
    override_var: Option<Seq<char>>,
    xdg_var: Option<Seq<char>>,
    home_var: Option<Seq<char>>,
    macos: bool,
) -> Seq<char> {
    if override_var matches Some(p) && trimmed(p).len() > 0 {
        trimmed(override_var->0)
    } else {
        let base = match xdg_var {
            Some(x) => if trimmed(x).len() == 0 {
                config_root(home_var, macos)
            } else {
                trimmed(x)
            },
            None => config_root(home_var, macos),
        };
        path_joined(path_joined(base, "ostrich-connect"@), "config.json"@)
    }
}

/// The home directory from the value of `HOME`, if it is set and not blank.
pub fn home_dir(home_var: &Option<String>) -> (r: Option<String>)
    ensures
        opt_view(r) == home_from(opt_view(*home_var)),
{
    match home_var {
        Some(h) => {
            let t = trim(h.as_str());
            if t.as_str().is_empty() {
                None
            } else {
                Some(t)
            }
        },
        None => None,
    }
}

/// The directory that holds per-user configuration.
pub fn default_config_root(home_var: &Option<String>, macos: bool) -> (r: String)
    ensures
        r@ == config_root(opt_view(*home_var), macos),
{
    match home_dir(home_var) {
        Some(h) => {
            if macos {
                let library = path_join(h.as_str(), "Library");
                path_join(library.as_str(), "Application Support")
            } else {
                path_join(h.as_str(), ".config")
            }
        },
        None => {
            proof {
                reveal_strlit(".");
                assert("."@ =~= seq!['.']);
            }
            String::from_str(".")
        },
    }
}

/// Where the configuration file is, given the values of
/// `OSTRICH_CONNECT_CONFIG_PATH`, `XDG_CONFIG_HOME` and `HOME`, and whether
/// this is macOS.
pub fn config_path(
    override_var: &Option<String>,
    xdg_var: &Option<String>,
    home_var: &Option<String>,
    macos: bool,
) -> (r: String)
    ensures
        r@ == config_location(opt_view(*override_var), opt_view(*xdg_var), opt_view(*home_var), macos),
{
    match override_var {
        Some(p) => {
            let t = trim(p.as_str());
            if !t.as_str().is_empty() {
                return t;
            }
        },
        None => {},
    }
    let base = match xdg_var {
        Some(x) => {
            let t = trim(x.as_str());
            if t.as_str().is_empty() {
                default_config_root(home_var, macos)
            } else {
                t
            }
        },
        None => default_config_root(home_var, macos),
    };
    let dir = path_join(base.as_str(), "ostrich-connect");
    path_join(dir.as_str(), "config.json")
}

/// The configuration a backend starts with, given what loading the
/// configuration file gave: the loaded one, or the default configuration
/// where loading failed. A failed load never stops the backend.
pub fn config_or_default(loaded: Result<AppConfig, OcError>) -> (r: AppConfig)
    ensures
        match loaded {
            Ok(c) => r == c,
            Err(_) => r@ == (ConfigView { editor: default_editor_text(), connections: Seq::empty() }),
        },
{
    match loaded {
        Ok(c) => c,
        Err(_) => AppConfig::default(),
    }
}

} // verus!
