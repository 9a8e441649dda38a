//! Finding out which GitHub repository a workspace belongs to.
//!
//! The host runs the commands; this module decides. A detection is a short
//! exchange: each `Detection` but the last asks the host for one thing, and
//! the host's reply leads to the next. The remote of the git checkout comes
//! first, enriched with what the GitHub command-line client knows where that
//! client is installed; the environment comes second; an empty list is what
//! is left. No failure ends a detection with an error.

use vstd::prelude::*;
use crate::host::{
    copy_env, env_lookup, successful_stdout, CommandLine, CommandModel, CommandReply, EnvModel,
};
use crate::remote::{parse_github_url, repo_of_url};
use crate::repository::{
    described, described_plainly, metadata_of_text, repository_of_env, repository_variable,
    unknown_metadata, MetadataModel, RepoMetadata, RepositoryDescriptor, RepositoryModel,
};
use crate::text::{
    chars_of, decode_lossy, lemma_run_len_unique, lossy_text, trim_bounds, trimmed,
};

verus! {

/// The workspace that a detection is about: its root and the environment of
/// its shell.
#[derive(Debug, Clone, PartialEq, Eq)]
pub struct Workspace {
    pub root_path: String,
    pub shell_env: Vec<(String, String)>,
}

/// The mathematical content of a `Workspace`.
pub struct WorkspaceModel {
    pub root: Seq<char>,
    pub env: EnvModel,
}

impl View for Workspace {
    type V = WorkspaceModel;

    open spec fn view(&self) -> WorkspaceModel {
        WorkspaceModel { root: self.root_path@, env: self.shell_env.deep_view() }
    }
}

/// A point in a detection: what the host is asked next, or the result.
#[derive(Debug, Clone, PartialEq, Eq)]
pub enum Detection {
    /// Run this command, which asks git for the URL of the remote `origin`.
    RunGit(CommandLine),
    /// Say whether `program` is installed. Owner and name are what the
    /// remote URL gave.
    Locate { program: String, owner: String, name: String },
    /// Run this command, which asks for the metadata of `owner/name`.
    RunGh { owner: String, name: String, command: CommandLine },
    /// The detection is over: no repository, or one.
    Done(Vec<RepositoryDescriptor>),
}

/// The mathematical content of a `Detection`.
pub enum DetectionModel {
    RunGit(CommandModel),
    Locate { program: Seq<char>, owner: Seq<char>, name: Seq<char> },
    RunGh { owner: Seq<char>, name: Seq<char>, command: CommandModel },
    Done(Seq<RepositoryModel>),
}

impl View for Detection {
    type V = DetectionModel;

    open spec fn view(&self) -> DetectionModel {
        match self {
            Detection::RunGit(command) => DetectionModel::RunGit(command@),
            Detection::Locate { program, owner, name } => DetectionModel::Locate {
                program: program@,
                owner: owner@,
                name: name@,
            },
            Detection::RunGh { owner, name, command } => DetectionModel::RunGh {
                owner: owner@,
                name: name@,
                command: command@,
            },
            Detection::Done(repos) => DetectionModel::Done(repos.deep_view()),
        }
    }
}

/// What the host answers.
#[derive(Debug, PartialEq, Eq)]
pub enum HostReply {
    /// A command was run, or could not be.
    Ran(CommandReply),
    /// Whether the program asked for is installed.
    Located(bool),
}

/// `git -C <root> remote get-url origin`, in the environment of the
/// workspace.
pub open spec fn git_command(ws: WorkspaceModel) -> CommandModel {
    CommandModel {
        program: "git"@,
        args: seq!["-C"@, ws.root, "remote"@, "get-url"@, "origin"@],
        env: ws.env,
    }
}

/// `gh repo view <owner>/<name> --json id,owner`, in the environment of the
/// workspace.
pub open spec fn gh_command(ws: WorkspaceModel, owner: Seq<char>, name: Seq<char>) -> CommandModel {
    CommandModel {
        program: "gh"@,
        args: seq!["repo"@, "view"@, owner + "/"@ + name, "--json"@, "id,owner"@],
        env: ws.env,
    }
}

/// What a command printed, as text: its standard output, decoded, where it
/// ended with exit code 0; nothing for a command that could not be run or
/// ended otherwise.
pub open spec fn printed_text(reply: CommandReply) -> Option<Seq<char>> {
    match successful_stdout(reply) {
        Some(bytes) => Some(lossy_text(bytes)),
        None => None,
    }
}

/// Owner and name in what git printed: those of the URL that is left once
/// the white space around it is gone, where that URL is understood.
pub open spec fn remote_in(printed: Option<Seq<char>>) -> Option<(Seq<char>, Seq<char>)> {
    match printed {
        Some(text) => repo_of_url(trimmed(text)),
        None => None,
    }
}

/// Owner and name that git's answer gives.
pub open spec fn remote_of(reply: CommandReply) -> Option<(Seq<char>, Seq<char>)> {
    remote_in(printed_text(reply))
}

/// The metadata in what the GitHub client printed: what is read of it where
/// it is JSON; otherwise nothing is known.
pub open spec fn metadata_in(printed: Option<Seq<char>>) -> MetadataModel {
    match printed {
        Some(text) => match metadata_of_text(text) {
            Some(metadata) => metadata,
            None => unknown_metadata(),
        },
        None => unknown_metadata(),
    }
}

/// The metadata that the answer of the GitHub client gives.
pub open spec fn metadata_of_reply(reply: CommandReply) -> MetadataModel {
    metadata_in(printed_text(reply))
}

/// What is detected without a remote: the repository that the environment
/// names, or none.
pub open spec fn fallback(ws: WorkspaceModel) -> Seq<RepositoryModel> {
    match repository_of_env(ws.root, ws.env) {
        Some(repo) => seq![repo],
        None => seq![],
    }
}

/// Where a detection begins.
pub open spec fn begun(ws: WorkspaceModel) -> DetectionModel {
    DetectionModel::RunGit(git_command(ws))
}

/// The step after git printed `printed`, or failed: with a remote, the host
/// is asked whether the GitHub client is installed; without one, the
/// detection ends with what the environment names.
pub open spec fn after_remote_text(ws: WorkspaceModel, printed: Option<Seq<char>>) -> DetectionModel {
    match remote_in(printed) {
        Some((owner, name)) => DetectionModel::Locate { program: "gh"@, owner, name },
        None => DetectionModel::Done(fallback(ws)),
    }
}

/// The step after git answered.
pub open spec fn after_git(ws: WorkspaceModel, reply: CommandReply) -> DetectionModel {
    after_remote_text(ws, printed_text(reply))
}

/// The end of a detection that has owner, name and metadata.
pub open spec fn finished(
    ws: WorkspaceModel,
    owner: Seq<char>,
    name: Seq<char>,
    metadata: MetadataModel,
) -> DetectionModel {
    DetectionModel::Done(seq![described(ws.root, owner, name, metadata)])
}

/// The step after the host said whether the GitHub client is installed.
pub open spec fn after_locate(
    ws: WorkspaceModel,
    owner: Seq<char>,
    name: Seq<char>,
    found: bool,
) -> DetectionModel {
    if found {
        DetectionModel::RunGh { owner, name, command: gh_command(ws, owner, name) }
    } else {
        finished(ws, owner, name, unknown_metadata())
    }
}

/// The step after the GitHub client answered.
pub open spec fn after_gh(
    ws: WorkspaceModel,
    owner: Seq<char>,
    name: Seq<char>,
    reply: CommandReply,
) -> DetectionModel {
    finished(ws, owner, name, metadata_of_reply(reply))
}

/// The step that follows `pending` on `reply`. A reply that does not answer
/// what was asked changes nothing.
pub open spec fn advanced(
    ws: WorkspaceModel,
    pending: DetectionModel,
    reply: HostReply,
) -> DetectionModel {
    match (pending, reply) {
        (DetectionModel::RunGit(_), HostReply::Ran(ran)) => after_git(ws, ran),
        (DetectionModel::Locate { owner, name, .. }, HostReply::Located(found)) => after_locate(
            ws,
            owner,
            name,
            found,
        ),
        (DetectionModel::RunGh { owner, name, .. }, HostReply::Ran(ran)) => after_gh(
            ws,
            owner,
            name,
            ran,
        ),
        _ => pending,
    }
}

/// What a whole detection finds, given what the host answers to each of the
/// three questions (the later answers count only where they are asked for).
pub open spec fn detected(
    ws: WorkspaceModel,
    git: CommandReply,
    gh_found: bool,
    gh: CommandReply,
) -> Seq<RepositoryModel> {
    match remote_of(git) {
        Some((owner, name)) => if gh_found {
            seq![described(ws.root, owner, name, metadata_of_reply(gh))]
        } else {
            seq![described_plainly(ws.root, owner, name)]
        },
        None => fallback(ws),
    }
}

/// The text of an optional string.
pub open spec fn text_of(text: Option<&str>) -> Option<Seq<char>> {
    match text {
        Some(s) => Some(s@),
        None => None,
    }
}

/// What a command printed, as text, where it ended with exit code 0.
fn printed(reply: &CommandReply) -> (text: Option<String>)
    ensures
        match text {
            Some(s) => printed_text(*reply) == Some(s@),
            None => printed_text(*reply) is None,
        },
{
    match reply {
        Ok(output) => match output.status {
            Some(code) => if code == 0 {
                Some(decode_lossy(&output.stdout))
            } else {
                None
            },
            None => None,
        },
        Err(_) => None,
    }
}

impl Workspace {
    /// The command that asks git for the URL of the remote `origin`.
    pub fn git_command(&self) -> (command: CommandLine)
        ensures
            command@ == git_command(self@),
    {
        let mut args: Vec<String> = Vec::new();
        args.push("-C".to_owned());
        args.push(self.root_path.clone());
        args.push("remote".to_owned());
        args.push("get-url".to_owned());
        args.push("origin".to_owned());
        assert(args.deep_view() =~= git_command(self@).args);
        CommandLine { program: "git".to_owned(), args, env: copy_env(&self.shell_env) }
    }

    /// The command that asks the GitHub client for the metadata of
    /// `owner/name`.
    pub fn gh_command(&self, owner: &str, name: &str) -> (command: CommandLine)
        ensures
            command@ == gh_command(self@, owner@, name@),
    {
        let slug = owner.to_owned().concat("/").concat(name);
        let mut args: Vec<String> = Vec::new();
        args.push("repo".to_owned());
        args.push("view".to_owned());
        args.push(slug);
        args.push("--json".to_owned());
        args.push("id,owner".to_owned());
        assert(args.deep_view() =~= gh_command(self@, owner@, name@).args);
        CommandLine { program: "gh".to_owned(), args, env: copy_env(&self.shell_env) }
    }

    /// Begins a detection: git is asked first.
    pub fn start(&self) -> (step: Detection)
        ensures
            step@ == begun(self@),
    {
        Detection::RunGit(self.git_command())
    }

    /// What is detected without a remote.
    fn fallback(&self) -> (repos: Vec<RepositoryDescriptor>)
        ensures
            repos.deep_view() == fallback(self@),
    {
        let mut repos: Vec<RepositoryDescriptor> = Vec::new();
        match RepositoryDescriptor::from_env(self.root_path.as_str(), &self.shell_env) {
            Some(repo) => {
                repos.push(repo);
            },
            None => {},
        }
        assert(repos.deep_view() =~= fallback(self@));
        repos
    }

    /// Takes what git printed (`None` where it failed). Where that is a URL
    /// that is understood, the host is asked next whether the GitHub client
    /// is installed; in every other case the detection ends with what the
    /// environment names.
    pub fn on_remote_text(&self, printed: Option<&str>) -> (step: Detection)
        ensures
            step@ == after_remote_text(self@, text_of(printed)),
    {
        let parsed = match printed {
            Some(text) => {
                let chars = chars_of(text);
                let (from, to) = trim_bounds(&chars);
                parse_github_url(text.substring_char(from, to))
            },
            None => None,
        };
        match parsed {
            Some((owner, name)) => Detection::Locate { program: "gh".to_owned(), owner, name },
            None => Detection::Done(self.fallback()),
        }
    }

    /// Takes git's answer: what it printed counts where it ended with exit
    /// code 0.
    pub fn on_git_output(&self, reply: &CommandReply) -> (step: Detection)
        ensures
            step@ == after_git(self@, *reply),
    {
        match printed(reply) {
            Some(text) => self.on_remote_text(Some(text.as_str())),
            None => self.on_remote_text(None),
        }
    }

    /// Ends a detection with owner, name and the metadata at hand.
    pub fn finish(&self, owner: String, name: String, metadata: &RepoMetadata) -> (step: Detection)
        ensures
            step@ == finished(self@, owner@, name@, metadata@),
    {
        let repo = RepositoryDescriptor::new(self.root_path.as_str(), owner, name, metadata);
        let mut repos: Vec<RepositoryDescriptor> = Vec::new();
        repos.push(repo);
        assert(repos.deep_view() =~= seq![repo@]);
        Detection::Done(repos)
    }

    /// Takes the host's word on whether the GitHub client is installed:
    /// where it is, it is asked for the metadata; where it is not, the
    /// detection ends with owner and name alone.
    pub fn on_gh_located(&self, owner: String, name: String, found: bool) -> (step: Detection)
        ensures
            step@ == after_locate(self@, owner@, name@, found),
    {
        if found {
            let command = self.gh_command(owner.as_str(), name.as_str());
            Detection::RunGh { owner, name, command }
        } else {
            self.finish(owner, name, &RepoMetadata::unknown())
        }
    }

    /// Takes the answer of the GitHub client and ends the detection: with
    /// the metadata it printed, or without any where it failed or printed
    /// no JSON.
    pub fn on_gh_output(&self, owner: String, name: String, reply: &CommandReply) -> (step:
        Detection)
        ensures
            step@ == after_gh(self@, owner@, name@, *reply),
    {
        let read = match printed(reply) {
            Some(text) => RepoMetadata::read(text.as_str()),
            None => None,
        };
        match read {
            Some(metadata) => self.finish(owner, name, &metadata),
            None => self.finish(owner, name, &RepoMetadata::unknown()),
        }
    }

    /// Moves a detection on by one reply of the host. A reply that does not
    /// answer what `pending` asks leaves it as it is.
    pub fn advance(&self, pending: Detection, reply: HostReply) -> (step: Detection)
        ensures
            step@ == advanced(self@, pending@, reply),
    {
        match (pending, reply) {
            (Detection::RunGit(_), HostReply::Ran(ran)) => self.on_git_output(&ran),
            (Detection::Locate { program: _, owner, name }, HostReply::Located(found)) => {
                self.on_gh_located(owner, name, found)
            },
            (Detection::RunGh { owner, name, command: _ }, HostReply::Ran(ran)) => {
                self.on_gh_output(owner, name, &ran)
            },
            (pending, _) => pending,
        }
    }
}

/// Git that could not be run, or that ended with another exit code than 0,
/// gives no remote.
pub proof fn law_failed_git_gives_no_remote(git: CommandReply)
    requires
        successful_stdout(git) is None,
    ensures
        remote_of(git) is None,
{
}

/// Where git gives no remote and the environment names `owner/name`, the
/// detection ends at once with exactly one repository: that owner and name,
/// id 0, not owned by an organization.
pub proof fn law_environment_names_repository(
    ws: WorkspaceModel,
    git: CommandReply,
    owner: Seq<char>,
    name: Seq<char>,
)
    requires
        remote_of(git) is None,
        !owner.contains('/'),
        env_lookup(ws.env, repository_variable()) == Some(owner + seq!['/'] + name),
    ensures
        after_git(ws, git) == DetectionModel::Done(
            seq![described_plainly(ws.root, owner, name)],
        ),
        described_plainly(ws.root, owner, name).id == 0,
        !described_plainly(ws.root, owner, name).organization_owned,
{
    let value = owner + seq!['/'] + name;
    let n = owner.len() as int;
    assert forall|k: int| 0 <= k < n implies value[k] != '/' by {
        assert(value[k] == owner[k]);
    }
    assert(value[n] == '/');
    lemma_run_len_unique(value, '/', n);
    assert(value.take(n) =~= owner);
    assert(value.skip(n + 1) =~= name);
}

/// Where git gives no remote and the environment names no repository, the
/// detection ends at once with an empty list.
pub proof fn law_nothing_detected(ws: WorkspaceModel, git: CommandReply)
    requires
        remote_of(git) is None,
        repository_of_env(ws.root, ws.env) is None,
    ensures
        after_git(ws, git) == DetectionModel::Done(Seq::<RepositoryModel>::empty()),
        forall|gh_found: bool, gh: CommandReply|
            #[trigger] detected(ws, git, gh_found, gh) == Seq::<RepositoryModel>::empty(),
{
    assert(fallback(ws) =~= Seq::<RepositoryModel>::empty());
}

/// Every detection is over once the host has answered the three questions,
/// whatever it answered, and it has found what `detected` says. No answer
/// makes it fail.
pub proof fn law_detection_ends(
    ws: WorkspaceModel,
    git: CommandReply,
    gh_found: bool,
    gh: CommandReply,
)
    ensures
        advanced(
            ws,
            advanced(ws, advanced(ws, begun(ws), HostReply::Ran(git)), HostReply::Located(gh_found)),
            HostReply::Ran(gh),
        ) == DetectionModel::Done(detected(ws, git, gh_found, gh)),
{
}

/// A detection finds no repository or one.
pub proof fn law_at_most_one_repository(
    ws: WorkspaceModel,
    git: CommandReply,
    gh_found: bool,
    gh: CommandReply,
)
    ensures
        detected(ws, git, gh_found, gh).len() <= 1,
{
}

} // verus!
