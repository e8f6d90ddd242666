//! Where the CLI keeps its state: the registry file's path.

use vstd::prelude::*;

use crate::text::{push_str, string_of};

verus! {

/// The environment variables that decide the default registry path, each as
/// its value when it is set to valid Unicode.
#[derive(Clone, Debug, PartialEq, Eq)]
pub struct StateEnv {
    /// `STP_REGISTRY`
    pub stp_registry: Option<String>,
    /// `XDG_STATE_HOME`
    pub xdg_state_home: Option<String>,
    /// `HOME`
    pub home: Option<String>,
}

/// `base` joined with the relative path `rest`, as `PathBuf::join` does: a
/// separator goes between them unless `base` is empty or already ends in one.
pub open spec fn join_path(base: Seq<char>, rest: Seq<char>) -> Seq<char> {
    if base.len() == 0 || base.last() == '/' {
        base + rest
    } else {
        base + seq!['/'] + rest
    }
}

fn join(base: &str, rest: &str) -> (r: String)
    requires
        rest@.len() > 0 && rest@[0] != '/',
    ensures
        r@ == join_path(base@, rest@),
{
    let mut out: Vec<char> = Vec::new();
    push_str(&mut out, base);
    let cs = crate::text::chars_of(base);
    let needs_sep = cs.len() > 0 && cs[cs.len() - 1] != '/';
    if needs_sep {
        out.push('/');
    }
    push_str(&mut out, rest);
    string_of(&out)
}

/// The directory that holds the state: `$XDG_STATE_HOME` when it is set and
/// not empty (as `${XDG_STATE_HOME:-~/.local/state}` reads it), else
/// `$HOME/.local/state`, else the current directory.
pub open spec fn state_home(env: StateEnv) -> Seq<char> {
    match env.xdg_state_home {
        Some(x) if x@.len() > 0 => x@,
        _ => match env.home {
            Some(h) => join_path(h@, ".local/state"@),
            None => "."@,
        },
    }
}

/// The registry path when none is given: `$STP_REGISTRY`, else
/// `sexy-terminal-panel/registry.json` under the state directory.
pub open spec fn default_registry_path_spec(env: StateEnv) -> Seq<char> {
    match env.stp_registry {
        Some(p) => p@,
        None => join_path(state_home(env), "sexy-terminal-panel/registry.json"@),
    }
}

/// The default registry path for the given environment.
pub fn default_registry_path(env: &StateEnv) -> (r: String)
    ensures
        r@ == default_registry_path_spec(*env),
{
    proof {
        reveal_strlit(".local/state");
        reveal_strlit("sexy-terminal-panel/registry.json");
        reveal_strlit(".");
    }
    if let Some(path) = &env.stp_registry {
        return path.clone();
    }
    let xdg_set = match &env.xdg_state_home {
        Some(x) => crate::text::chars_of(x.as_str()).len() > 0,
        None => false,
    };
    let state_home = if xdg_set {
        match &env.xdg_state_home {
            Some(x) => x.clone(),
            None => ".".to_string(),
        }
    } else {
        match &env.home {
            Some(h) => join(h.as_str(), ".local/state"),
            None => ".".to_string(),
        }
    };
    join(state_home.as_str(), "sexy-terminal-panel/registry.json")
}

/// The registry path: the one given, else the default.
pub fn selected_registry_path(path: Option<String>, env: &StateEnv) -> (r: String)
    ensures
        r@ == match path {
            Some(p) => p@,
            None => default_registry_path_spec(*env),
        },
{
    match path {
        Some(p) => p,
        None => default_registry_path(env),
    }
}

} // verus!
