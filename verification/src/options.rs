//! What the language server is told when it starts: a token to talk to
//! GitHub with and the repositories of the workspace.

use vstd::prelude::*;
use crate::detect::{detected, remote_of, WorkspaceModel};
use crate::host::{env_lookup, lookup, CommandReply, EnvModel};
use crate::repository::{repository_of_env, RepositoryDescriptor, RepositoryModel};

verus! {

/// The initialization options of the language server.
#[derive(Debug, Clone, PartialEq, Eq)]
pub struct InitializationOptions {
    /// The token of the session; empty where none is set.
    pub session_token: String,
    /// The experimental features that are switched on: none.
    pub experimental_features: Vec<(String, bool)>,
    /// The repositories of the workspace: none, or one.
    pub repos: Vec<RepositoryDescriptor>,
}

/// The mathematical content of `InitializationOptions`.
pub struct OptionsModel {
    pub session_token: Seq<char>,
    pub experimental_features: Seq<(Seq<char>, bool)>,
    pub repos: Seq<RepositoryModel>,
}

impl View for InitializationOptions {
    type V = OptionsModel;

    open spec fn view(&self) -> OptionsModel {
        OptionsModel {
            session_token: self.session_token@,
            experimental_features: self.experimental_features.deep_view(),
            repos: self.repos.deep_view(),
        }
    }
}

/// The token that an environment holds: the value of `GITHUB_TOKEN` where
/// that is set, else that of `GH_TOKEN`, else the empty text.
pub open spec fn token_of_env(env: EnvModel) -> Seq<char> {
    match env_lookup(env, "GITHUB_TOKEN"@) {
        Some(token) => token,
        None => match env_lookup(env, "GH_TOKEN"@) {
            Some(token) => token,
            None => Seq::empty(),
        },
    }
}

/// The options for a workspace with the environment `env` in which the
/// repositories `repos` were detected.
pub open spec fn options_of(env: EnvModel, repos: Seq<RepositoryModel>) -> OptionsModel {
    OptionsModel {
        session_token: token_of_env(env),
        experimental_features: Seq::empty(),
        repos,
    }
}

/// Reads the token out of an environment. The token is taken as it is.
pub fn session_token(env: &Vec<(String, String)>) -> (token: String)
    ensures
        token@ == token_of_env(env.deep_view()),
{
    match lookup(env, "GITHUB_TOKEN") {
        Some(token) => token.clone(),
        None => match lookup(env, "GH_TOKEN") {
            Some(token) => token.clone(),
            None => String::new(),
        },
    }
}

/// Puts the initialization options together from the environment of the
/// workspace and the repositories that were detected in it.
pub fn language_server_initialization_options(
    env: &Vec<(String, String)>,
    repos: Vec<RepositoryDescriptor>,
) -> (options: InitializationOptions)
    ensures
        options@ == options_of(env.deep_view(), repos.deep_view()),
{
    let experimental_features: Vec<(String, bool)> = Vec::new();
    assert(experimental_features.deep_view() =~= Seq::<(Seq<char>, bool)>::empty());
    InitializationOptions { session_token: session_token(env), experimental_features, repos }
}

/// Where git gives no remote and the environment names no repository, the
/// options list no repository, whatever else the host answered.
pub proof fn law_nothing_detected_lists_nothing(
    ws: WorkspaceModel,
    git: CommandReply,
    gh_found: bool,
    gh: CommandReply,
)
    requires
        remote_of(git) is None,
        repository_of_env(ws.root, ws.env) is None,
    ensures
        options_of(ws.env, detected(ws, git, gh_found, gh)).repos == Seq::<
            RepositoryModel,
        >::empty(),
{
}

} // verus!
