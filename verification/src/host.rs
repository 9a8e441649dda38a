//! The plain values that pass between this crate and the editor host: the
//! commands it is asked to run and what it reports of them.

use vstd::prelude::*;
use crate::text::same_text;

verus! {

/// The variables of a shell environment, in the order the host lists them.
pub type EnvModel = Seq<(Seq<char>, Seq<char>)>;

/// A command for the host to run: a program, its arguments and the
/// environment variables to set for it.
#[derive(Debug, Clone, PartialEq, Eq)]
pub struct CommandLine {
    pub program: String,
    pub args: Vec<String>,
    pub env: Vec<(String, String)>,
}

/// The mathematical content of a `CommandLine`.
pub struct CommandModel {
    pub program: Seq<char>,
    pub args: Seq<Seq<char>>,
    pub env: EnvModel,
}

impl View for CommandLine {
    type V = CommandModel;

    open spec fn view(&self) -> CommandModel {
        CommandModel {
            program: self.program@,
            args: self.args.deep_view(),
            env: self.env.deep_view(),
        }
    }
}

/// What the host reports of a command that ran to its end.
#[derive(Debug, Clone, PartialEq, Eq)]
pub struct CommandOutput {
    /// The exit code, where the process ended with one.
    pub status: Option<i32>,
    pub stdout: Vec<u8>,
    pub stderr: Vec<u8>,
}

/// What the host reports of a command: its output, or why it could not be
/// run.
pub type CommandReply = Result<CommandOutput, String>;

/// The standard output of a command that ran and ended with exit code 0;
/// nothing for a command that could not be run or ended otherwise.
pub open spec fn successful_stdout(reply: CommandReply) -> Option<Seq<u8>> {
    match reply {
        Ok(output) => if output.status == Some(0i32) {
            Some(output.stdout@)
        } else {
            None
        },
        Err(_) => None,
    }
}

/// The value of the first variable named `key`, if there is one.
pub open spec fn env_lookup(env: EnvModel, key: Seq<char>) -> Option<Seq<char>>
    decreases env.len(),
{
    if env.len() == 0 {
        None
    } else if env[0].0 == key {
        Some(env[0].1)
    } else {
        env_lookup(env.skip(1), key)
    }
}

/// A variable is found exactly when some entry is named `key`; the value is
/// that of the first such entry.
pub proof fn lemma_env_lookup(env: EnvModel, key: Seq<char>)
    ensures
        match env_lookup(env, key) {
            Some(value) => exists|i: int|
                0 <= i < env.len() && env[i] == (key, value) && forall|k: int|
                    0 <= k < i ==> env[k].0 != key,
            None => forall|i: int| 0 <= i < env.len() ==> env[i].0 != key,
        },
    decreases env.len(),
{
    if env.len() == 0 {
    } else if env[0].0 == key {
        assert(env[0] == (key, env[0].1));
    } else {
        let rest = env.skip(1);
        lemma_env_lookup(rest, key);
        match env_lookup(rest, key) {
            Some(value) => {
                let i = choose|i: int|
                    0 <= i < rest.len() && rest[i] == (key, value) && forall|k: int|
                        0 <= k < i ==> rest[k].0 != key;
                assert(env[i + 1] == (key, value));
                assert forall|k: int| 0 <= k < i + 1 implies env[k].0 != key by {
                    if k > 0 {
                        assert(rest[k - 1] == env[k]);
                    }
                }
            },
            None => {
                assert forall|i: int| 0 <= i < env.len() implies env[i].0 != key by {
                    if i > 0 {
                        assert(rest[i - 1] == env[i]);
                    }
                }
            },
        }
    }
}

/// Looks a variable up in an environment: the value of the first entry
/// named `key`.
pub fn lookup<'a>(env: &'a Vec<(String, String)>, key: &str) -> (found: Option<&'a String>)
    ensures
        match found {
            Some(value) => env_lookup(env.deep_view(), key@) == Some(value@),
            None => env_lookup(env.deep_view(), key@) is None,
        },
{
    let mut i: usize = 0;
    assert(env.deep_view().skip(0) =~= env.deep_view());
    while i < env.len()
        invariant
            i <= env.len(),
            env_lookup(env.deep_view(), key@) == env_lookup(env.deep_view().skip(i as int), key@),
        decreases env.len() - i,
    {
        let ghost rest = env.deep_view().skip(i as int);
        assert(rest[0] == env.deep_view()[i as int]);
        assert(rest.skip(1) =~= env.deep_view().skip(i + 1));
        if same_text(env[i].0.as_str(), key) {
            return Some(&env[i].1);
        }
        i += 1;
    }
    None
}

/// An owned copy of an environment.
pub fn copy_env(env: &Vec<(String, String)>) -> (copy: Vec<(String, String)>)
    ensures
        copy.deep_view() == env.deep_view(),
{
    let mut copy: Vec<(String, String)> = Vec::new();
    let mut i: usize = 0;
    while i < env.len()
        invariant
            i <= env.len(),
            copy.len() == i,
            forall|k: int| 0 <= k < i ==> copy@[k].0@ == env@[k].0@ && copy@[k].1@ == env@[k].1@,
        decreases env.len() - i,
    {
        copy.push((env[i].0.clone(), env[i].1.clone()));
        i += 1;
    }
    assert(copy.deep_view() =~= env.deep_view());
    copy
}

} // verus!
