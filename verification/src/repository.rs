//! The description of a repository that the language server is started with,
//! and the sources it is put together from: owner and name, the metadata
//! that the GitHub command-line client prints, and the environment.

use vstd::prelude::*;
use crate::host::{env_lookup, lookup, EnvModel};
use crate::json::{
    json_member, json_of_text, member, parse_json, tree_as_i64, tree_as_text, JsonTree,
};
use crate::text::{chars_of, find_from, run_len, same_text, slice_of};

verus! {

/// One repository, as the language server is told of it.
#[derive(Debug, Clone, PartialEq, Eq)]
pub struct RepositoryDescriptor {
    /// The numeric id of the repository; 0 where it is not known.
    pub id: i64,
    pub owner: String,
    pub name: String,
    /// Whether the owner is an organization; `false` also where that is not
    /// known.
    pub organization_owned: bool,
    /// The workspace root as a `file://` address.
    pub workspace_uri: String,
}

/// The mathematical content of a `RepositoryDescriptor`.
pub struct RepositoryModel {
    pub id: i64,
    pub owner: Seq<char>,
    pub name: Seq<char>,
    pub organization_owned: bool,
    pub workspace_uri: Seq<char>,
}

impl View for RepositoryDescriptor {
    type V = RepositoryModel;

    open spec fn view(&self) -> RepositoryModel {
        RepositoryModel {
            id: self.id,
            owner: self.owner@,
            name: self.name@,
            organization_owned: self.organization_owned,
            workspace_uri: self.workspace_uri@,
        }
    }
}

impl DeepView for RepositoryDescriptor {
    type V = RepositoryModel;

    open spec fn deep_view(&self) -> RepositoryModel {
        self@
    }
}

/// What the GitHub command-line client says of a repository, as far as it is
/// read: the member `id` as an integer and the member `type` of the member
/// `owner` as a text, each where it is there and has that shape.
#[derive(Debug, Clone, PartialEq, Eq)]
pub struct RepoMetadata {
    pub id: Option<i64>,
    pub owner_type: Option<String>,
}

/// The mathematical content of a `RepoMetadata`.
pub struct MetadataModel {
    pub id: Option<i64>,
    pub owner_type: Option<Seq<char>>,
}

impl View for RepoMetadata {
    type V = MetadataModel;

    open spec fn view(&self) -> MetadataModel {
        MetadataModel {
            id: self.id,
            owner_type: match self.owner_type {
                Some(text) => Some(text@),
                None => None,
            },
        }
    }
}

/// The address of a workspace root: `file://` and the path.
pub open spec fn workspace_uri(root: Seq<char>) -> Seq<char> {
    "file://"@ + root
}

/// The owner type that marks an organization.
pub open spec fn organization() -> Seq<char> {
    "Organization"@
}

/// The descriptor of `owner/name` in the workspace at `root`, given what is
/// known of its metadata: the id is 0 where none is known, and the owner
/// counts as an organization only where its type says so.
pub open spec fn described(
    root: Seq<char>,
    owner: Seq<char>,
    name: Seq<char>,
    metadata: MetadataModel,
) -> RepositoryModel {
    RepositoryModel {
        id: match metadata.id {
            Some(n) => n,
            None => 0,
        },
        owner,
        name,
        organization_owned: metadata.owner_type == Some(organization()),
        workspace_uri: workspace_uri(root),
    }
}

/// Metadata of which nothing is known.
pub open spec fn unknown_metadata() -> MetadataModel {
    MetadataModel { id: None, owner_type: None }
}

/// The descriptor of `owner/name` where no metadata is to be had: id 0, not
/// owned by an organization.
pub open spec fn described_plainly(
    root: Seq<char>,
    owner: Seq<char>,
    name: Seq<char>,
) -> RepositoryModel {
    described(root, owner, name, unknown_metadata())
}

/// What is read of a JSON value as repository metadata.
pub open spec fn metadata_of_tree(tree: JsonTree) -> MetadataModel {
    MetadataModel {
        id: tree_as_i64(member(tree, "id"@)),
        owner_type: tree_as_text(member(member(tree, "owner"@), "type"@)),
    }
}

/// What is read of a text as repository metadata; nothing where the text is
/// not JSON.
pub open spec fn metadata_of_text(text: Seq<char>) -> Option<MetadataModel> {
    match json_of_text(text) {
        Some(tree) => Some(metadata_of_tree(tree)),
        None => None,
    }
}

/// The two parts of `s` around its first `sep`; nothing where it holds none.
pub open spec fn split_once(s: Seq<char>, sep: char) -> Option<(Seq<char>, Seq<char>)> {
    let i = run_len(s, sep);
    if i == s.len() {
        None
    } else {
        Some((s.take(i), s.skip(i + 1)))
    }
}

/// The variable that names the repository as `owner/name`.
pub open spec fn repository_variable() -> Seq<char> {
    "GITHUB_REPOSITORY"@
}

/// The repository that the environment names: the first variable
/// `GITHUB_REPOSITORY`, split at its first `/`. Nothing where the variable is
/// not set or holds no `/`.
pub open spec fn repository_of_env(root: Seq<char>, env: EnvModel) -> Option<RepositoryModel> {
    match env_lookup(env, repository_variable()) {
        Some(value) => match split_once(value, '/') {
            Some((owner, name)) => Some(described_plainly(root, owner, name)),
            None => None,
        },
        None => None,
    }
}

impl RepoMetadata {
    /// Metadata of which nothing is known.
    pub fn unknown() -> (metadata: RepoMetadata)
        ensures
            metadata@ == unknown_metadata(),
    {
        RepoMetadata { id: None, owner_type: None }
    }

    /// Reads the metadata out of the JSON text that the GitHub command-line
    /// client prints. Returns `None` exactly when the text is not JSON.
    pub fn read(text: &str) -> (metadata: Option<RepoMetadata>)
        ensures
            match metadata {
                Some(m) => metadata_of_text(text@) == Some(m@),
                None => metadata_of_text(text@) is None,
            },
    {
        match parse_json(text) {
            Some(value) => {
                let id = json_member(&value, "id").as_i64();
                let owner_type = match json_member(json_member(&value, "owner"), "type").as_str() {
                    Some(text) => Some(text.to_owned()),
                    None => None,
                };
                Some(RepoMetadata { id, owner_type })
            },
            None => None,
        }
    }
}

impl RepositoryDescriptor {
    /// Describes `owner/name` in the workspace at `root` with the metadata
    /// at hand.
    pub fn new(root: &str, owner: String, name: String, metadata: &RepoMetadata) -> (repo:
        RepositoryDescriptor)
        ensures
            repo@ == described(root@, owner@, name@, metadata@),
    {
        let id: i64 = match metadata.id {
            Some(n) => n,
            None => 0,
        };
        let organization_owned = match &metadata.owner_type {
            Some(kind) => same_text(kind.as_str(), "Organization"),
            None => false,
        };
        let workspace_uri = "file://".to_owned().concat(root);
        RepositoryDescriptor { id, owner, name, organization_owned, workspace_uri }
    }

    /// The repository that the environment names, if it names one.
    pub fn from_env(root: &str, env: &Vec<(String, String)>) -> (repo: Option<
        RepositoryDescriptor,
    >)
        ensures
            match repo {
                Some(r) => repository_of_env(root@, env.deep_view()) == Some(r@),
                None => repository_of_env(root@, env.deep_view()) is None,
            },
    {
        match lookup(env, "GITHUB_REPOSITORY") {
            Some(value) => {
                let chars = chars_of(value.as_str());
                let i = find_from(&chars, 0, '/');
                assert(chars@.skip(0) =~= chars@);
                if i == chars.len() {
                    None
                } else {
                    let owner = slice_of(value.as_str(), 0, i);
                    let name = slice_of(value.as_str(), i + 1, chars.len());
                    Some(RepositoryDescriptor::new(root, owner, name, &RepoMetadata::unknown()))
                }
            },
            None => None,
        }
    }
}

} // verus!
