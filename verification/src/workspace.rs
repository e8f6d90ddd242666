//! What the panel knows of a workspace: its canonical path, the repository it
//! belongs to, its branch, and an identifier derived from its path.

use vstd::prelude::*;

use sha2::Digest;

use crate::ids::{hex_digit, WorkspaceId};
use crate::text::{chars_of, file_name, file_name_spec, push_str, string_of, trim_chars, trim_spec};

verus! {

/// A discovered workspace.
#[derive(Clone, Debug, PartialEq, Eq)]
pub struct WorkspaceMetadata {
    pub workspace_id: WorkspaceId,
    pub workspace_path: String,
    pub repo_root: String,
    pub branch_name: Option<String>,
    pub is_git: bool,
}

/// Why a workspace could not be discovered.
#[derive(Clone, Debug, PartialEq, Eq)]
pub enum WorkspaceError {
    MissingPath(String),
    /// The path exists but could not be made canonical; the text says why.
    Canonicalize { path: String, reason: String },
}

/// What a workspace error says.
pub open spec fn workspace_error_text(e: WorkspaceError) -> Seq<char> {
    match e {
        WorkspaceError::MissingPath(path) => "workspace path does not exist: "@ + path@,
        WorkspaceError::Canonicalize { path, reason } => "failed to canonicalize workspace path "@ + path@
            + ": "@ + reason@,
    }
}

impl WorkspaceError {
    /// The error's message.
    pub fn text(&self) -> (r: String)
        ensures
            r@ == workspace_error_text(*self),
    {
        let mut out: Vec<char> = Vec::new();
        match self {
            WorkspaceError::MissingPath(path) => {
                push_str(&mut out, "workspace path does not exist: ");
                push_str(&mut out, path.as_str());
            },
            WorkspaceError::Canonicalize { path, reason } => {
                push_str(&mut out, "failed to canonicalize workspace path ");
                push_str(&mut out, path.as_str());
                push_str(&mut out, ": ");
                push_str(&mut out, reason.as_str());
            },
        }
        string_of(&out)
    }
}

/// What `sha2::Sha256` digests a byte string to.
pub uninterp spec fn sha256_of(data: Seq<u8>) -> Seq<u8>;

/// The SHA-256 digest of `data`, through `sha2::Sha256`. The crate's output size
/// is 32 bytes; the digest itself is named `sha256_of` and not restated.
#[verifier::external_body]
fn sha256(data: &[u8]) -> (r: Vec<u8>)
    ensures
        r@ == sha256_of(data@),
        r@.len() == 32,
{
    let mut hasher = sha2::Sha256::new();
    hasher.update(data);
    hasher.finalize().to_vec()
}

/// Two lowercase hexadecimal digits per byte, high nibble first.
pub open spec fn hex_lower(data: Seq<u8>) -> Seq<char>
    decreases data.len(),
{
    if data.len() == 0 {
        Seq::empty()
    } else {
        hex_lower(data.drop_last()) + seq![
            hex_digit((data.last() / 16) as nat),
            hex_digit((data.last() % 16) as nat),
        ]
    }
}

/// `hex::encode`: each byte as two lowercase hexadecimal digits, in order.
#[verifier::external_body]
fn hex_encode(data: &[u8]) -> (r: String)
    ensures
        r@ == hex_lower(data@),
{
    hex::encode(data)
}

/// The identifier of a workspace path: the first 16 bytes of the SHA-256 of
/// the path's UTF-8 text, in lowercase hexadecimal.
pub fn workspace_id_for_path(path: &str) -> (r: WorkspaceId)
    ensures
        r.value@ == hex_lower(sha256_of(vstd::utf8::encode_utf8(path@)).take(16)),
{
    let bytes = path.as_bytes_vec();
    let digest = sha256(bytes.as_slice());
    let mut head: Vec<u8> = Vec::new();
    let mut i: usize = 0;
    while i < 16
        invariant
            i <= 16,
            digest@.len() == 32,
            head@ == digest@.take(i as int),
        decreases 16 - i,
    {
        head.push(digest[i]);
        i = i + 1;
        assert(head@ =~= digest@.take(i as int));
    }
    WorkspaceId::new(hex_encode(head.as_slice()))
}

/// The canonical form of a workspace path, from what the file system said:
/// `MissingPath` when nothing is there, else the canonical path or why it could
/// not be had.
pub fn canonical_workspace(path: &str, exists: bool, canonical: Result<String, String>) -> (r: Result<
    String,
    WorkspaceError,
>)
    ensures
        !exists ==> (r matches Err(WorkspaceError::MissingPath(p)) && p@ == path@),
        exists ==> match canonical {
            Ok(c) => r == Ok::<String, WorkspaceError>(c),
            Err(reason) => (r matches Err(WorkspaceError::Canonicalize { path: p, reason: why })
                && p@ == path@ && why == reason),
        },
{
    if !exists {
        return Err(WorkspaceError::MissingPath(path.to_string()));
    }
    match canonical {
        Ok(c) => Ok(c),
        Err(reason) => Err(WorkspaceError::Canonicalize { path: path.to_string(), reason }),
    }
}

/// What `std::path::Path::parent` gives for a path: the path without its final
/// component, or nothing for a root or an empty path.
pub uninterp spec fn path_parent(path: Seq<char>) -> Option<Seq<char>>;

/// `Path::parent` on the text of a path.
#[verifier::external_body]
fn parent_of(path: &str) -> (r: Option<String>)
    ensures
        match r {
            Some(p) => path_parent(path@) == Some(p@),
            None => path_parent(path@) is None,
        },
{
    match std::path::Path::new(path).parent() {
        Some(p) => Some(p.to_string_lossy().into_owned()),
        None => None,
    }
}

/// Where the repository root comes from, given git's common directory.
#[derive(Clone, Debug, PartialEq, Eq)]
pub enum RepoRootSource {
    /// The common directory is a `.git` directory: the root is its parent.
    Parent(String),
    /// A `.git` directory without a parent: there is no root.
    NoParent,
    /// Otherwise git's top level is the root.
    Toplevel,
}

/// The repository root's source for git's common directory: the parent of a
/// directory named `.git`, else the work tree's top level.
pub fn repo_root_source(common_dir: &str) -> (r: RepoRootSource)
    ensures
        file_name_spec(common_dir@) == Some(".git"@) ==> match path_parent(common_dir@) {
            Some(p) => r matches RepoRootSource::Parent(q) && q@ == p,
            None => r == RepoRootSource::NoParent,
        },
        file_name_spec(common_dir@) != Some(".git"@) ==> r == RepoRootSource::Toplevel,
{
    let is_git_dir = match file_name(common_dir) {
        Some(name) => crate::text::text_eq(name.as_str(), ".git"),
        None => false,
    };
    proof {
        reveal_strlit(".git");
    }
    if is_git_dir {
        match parent_of(common_dir) {
            Some(p) => RepoRootSource::Parent(p),
            None => RepoRootSource::NoParent,
        }
    } else {
        RepoRootSource::Toplevel
    }
}

/// A line git printed, without surrounding whitespace.
pub fn git_output_line(output: &str) -> (r: String)
    ensures
        r@ == trim_spec(output@),
{
    let cs = chars_of(output);
    let t = trim_chars(cs.as_slice());
    string_of(&t)
}

/// The workspace at a canonical path: its repository root (the path itself
/// outside git), its branch as git printed it (none when empty or unknown), and
/// the identifier of the path.
pub fn discover_workspace(
    canonical: Result<String, WorkspaceError>,
    repo_root: Option<String>,
    branch_output: Option<String>,
) -> (r: Result<WorkspaceMetadata, WorkspaceError>)
    ensures
        match canonical {
            Err(e) => r == Err::<WorkspaceMetadata, WorkspaceError>(e),
            Ok(path) => r matches Ok(m) && {
                &&& m.workspace_path == path
                &&& m.workspace_id.value@ == hex_lower(
                    sha256_of(vstd::utf8::encode_utf8(path@)).take(16),
                )
                &&& m.is_git == repo_root is Some
                &&& m.repo_root == match repo_root {
                    Some(root) => root,
                    None => path,
                }
                &&& match branch_output {
                    Some(b) => if trim_spec(b@).len() == 0 {
                        m.branch_name is None
                    } else {
                        m.branch_name matches Some(n) && n@ == trim_spec(b@)
                    },
                    None => m.branch_name is None,
                }
            },
        },
{
    let workspace_path = match canonical {
        Ok(p) => p,
        Err(e) => {
            return Err(e);
        },
    };
    let branch_name = match branch_output {
        Some(raw) => {
            let cs = chars_of(raw.as_str());
            let line = trim_chars(cs.as_slice());
            if line.len() == 0 {
                None
            } else {
                Some(string_of(&line))
            }
        },
        None => None,
    };
    let is_git = repo_root.is_some();
    let root = match repo_root {
        Some(r) => r,
        None => workspace_path.clone(),
    };
    Ok(WorkspaceMetadata {
        workspace_id: workspace_id_for_path(workspace_path.as_str()),
        workspace_path,
        repo_root: root,
        branch_name,
        is_git,
    })
}

} // verus!
