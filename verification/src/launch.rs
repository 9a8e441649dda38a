//! How the language server is started: the interpreter, the entry point of
//! the installed package and one fixed flag.

use vstd::prelude::*;
use crate::host::{CommandLine, CommandModel};
use crate::text::chars_of;

verus! {

/// `base` with the relative path `part` under it: the two are joined by one
/// `/`, which is left out where `base` is empty or ends in `/` already.
pub open spec fn joined(base: Seq<char>, part: Seq<char>) -> Seq<char> {
    if base.len() == 0 || base.last() == '/' {
        base + part
    } else {
        base + seq!['/'] + part
    }
}

/// Where the package manager puts the entry point of the language server,
/// seen from the directory it installs into:
/// `<work_dir>/node_modules/@actions/languageserver/bin/actions-languageserver`.
pub open spec fn server_entry_path(work_dir: Seq<char>) -> Seq<char> {
    joined(
        joined(
            joined(joined(joined(work_dir, "node_modules"@), "@actions"@), "languageserver"@),
            "bin"@,
        ),
        "actions-languageserver"@,
    )
}

/// The command that starts the language server.
pub open spec fn server_command(node: Seq<char>, work_dir: Seq<char>) -> CommandModel {
    CommandModel {
        program: node,
        args: seq![server_entry_path(work_dir), "--stdio"@],
        env: Seq::<(Seq<char>, Seq<char>)>::empty(),
    }
}

/// Puts the relative path `part` under `base`.
pub fn join(base: String, part: &str) -> (path: String)
    ensures
        path@ == joined(base@, part@),
{
    let chars = chars_of(base.as_str());
    if chars.len() == 0 || chars[chars.len() - 1] == '/' {
        base.concat(part)
    } else {
        proof {
            reveal_strlit("/");
            assert("/"@ =~= seq!['/']);
        }
        base.concat("/").concat(part)
    }
}

/// The path of the entry point of the language server under the working
/// directory `work_dir`. Whether a file is there is not looked at.
pub fn binary_path(work_dir: &str) -> (path: String)
    ensures
        path@ == server_entry_path(work_dir@),
{
    let path = join(work_dir.to_owned(), "node_modules");
    let path = join(path, "@actions");
    let path = join(path, "languageserver");
    let path = join(path, "bin");
    join(path, "actions-languageserver")
}

/// The command that starts the language server: the interpreter at `node`
/// runs the entry point under `work_dir` with `--stdio`, in an environment
/// of its own.
pub fn language_server_command(node: String, work_dir: &str) -> (command: CommandLine)
    ensures
        command@ == server_command(node@, work_dir@),
{
    let mut args: Vec<String> = Vec::new();
    args.push(binary_path(work_dir));
    args.push("--stdio".to_owned());
    let env: Vec<(String, String)> = Vec::new();
    assert(args.deep_view() =~= server_command(node@, work_dir@).args);
    assert(env.deep_view() =~= server_command(node@, work_dir@).env);
    CommandLine { program: node, args, env }
}

} // verus!
