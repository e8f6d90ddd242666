//! Where the registry lives, and what its file's contents hold.

use vstd::prelude::*;

use super::format::registry_of_text;
use super::model::{Registry, Terminal};
use crate::decode::{json_error_text, JsonError};
use crate::text::{push_str, string_of};
use crate::workspace::{workspace_error_text, WorkspaceError};

verus! {

/// The registry file at a path.
#[derive(Clone, Debug, PartialEq, Eq)]
pub struct RegistryStore {
    path: String,
}

/// Why the registry could not be had.
#[derive(Clone, Debug, PartialEq, Eq)]
pub enum RegistryError {
    Workspace(WorkspaceError),
    /// The file at `path` could not be read; the text says why.
    Read { path: String, reason: String },
    /// The file or directory at `path` could not be written; the text says why.
    Write { path: String, reason: String },
    /// The file at `path` holds no registry.
    MalformedRegistry { path: String, source: JsonError },
}

/// What a registry error says.
pub open spec fn registry_error_text(e: RegistryError) -> Seq<char> {
    match e {
        RegistryError::Workspace(w) => workspace_error_text(w),
        RegistryError::Read { path, reason } => "failed to read registry "@ + path@ + ": "@ + reason@,
        RegistryError::Write { path, reason } => "failed to write registry "@ + path@ + ": "@ + reason@,
        RegistryError::MalformedRegistry { path, source } => "malformed registry "@ + path@ + ": "@
            + json_error_text(source),
    }
}

impl RegistryError {
    /// The error's message.
    pub fn text(&self) -> (r: String)
        ensures
            r@ == registry_error_text(*self),
    {
        let mut out: Vec<char> = Vec::new();
        match self {
            RegistryError::Workspace(w) => {
                return w.text();
            },
            RegistryError::Read { path, reason } => {
                push_str(&mut out, "failed to read registry ");
                push_str(&mut out, path.as_str());
                push_str(&mut out, ": ");
                push_str(&mut out, reason.as_str());
            },
            RegistryError::Write { path, reason } => {
                push_str(&mut out, "failed to write registry ");
                push_str(&mut out, path.as_str());
                push_str(&mut out, ": ");
                push_str(&mut out, reason.as_str());
            },
            RegistryError::MalformedRegistry { path, source } => {
                push_str(&mut out, "malformed registry ");
                push_str(&mut out, path.as_str());
                push_str(&mut out, ": ");
                push_str(&mut out, source.text().as_str());
            },
        }
        string_of(&out)
    }
}

impl View for RegistryStore {
    type V = Seq<char>;

    closed spec fn view(&self) -> Seq<char> {
        self.path@
    }
}

impl RegistryStore {
    pub fn new(path: String) -> (r: Self)
        ensures
            r@ == path@,
    {
        RegistryStore { path }
    }

    /// The registry file's path.
    pub fn path(&self) -> (r: &str)
        ensures
            r@ == self@,
    {
        self.path.as_str()
    }

    /// The registry that the file's contents hold: the empty registry when there
    /// is no file, else what the text decodes to, or `MalformedRegistry` naming
    /// this file and why.
    pub fn load_from(&self, contents: Option<&str>) -> (r: Result<Registry, RegistryError>)
        ensures
            match contents {
                None => r matches Ok(reg) && reg@.len() == 0,
                Some(text) => match registry_of_text(text@) {
                    Ok(l) => r matches Ok(reg) && reg@ == l,
                    Err(e) => r matches Err(RegistryError::MalformedRegistry { path, source }) && path@
                        == self@ && source == e,
                },
            },
    {
        match contents {
            None => {
                let reg = Registry { terminals: Vec::new() };
                assert(reg@ =~= Seq::<Terminal>::empty());
                Ok(reg)
            },
            Some(text) => match Registry::from_json(text) {
                Ok(reg) => Ok(reg),
                Err(source) => Err(RegistryError::MalformedRegistry { path: self.path.clone(), source }),
            },
        }
    }
}

} // verus!
