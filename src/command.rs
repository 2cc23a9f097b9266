//! The resolved entry of the server and the command lines that launch it.
use vstd::prelude::*;
use crate::escape::{shell_escape, shell_escaped};
use crate::text::{chars_vec, contains, contains_exec, lower_of, lowercase, str_eq, strs};

verus! {

/// How the entry script is run.
#[derive(Debug, Clone, Copy, PartialEq, Eq, Structural)]
pub enum Runner {
    /// The runtime runs the built script itself.
    Node,
    /// A source-transpiling runner script runs the development sources.
    Tsx,
}

/// What was resolved to launch the server: the entry script, how it is run, the
/// runner's own script where there is one, and the runtime binary.
#[derive(Debug)]
pub struct CliEntry {
    pub entry: String,
    pub runner: Runner,
    pub runner_path: Option<String>,
    pub node_binary: String,
}

/// The mathematical content of a [`CliEntry`].
pub struct EntryView {
    pub entry: Seq<char>,
    pub runner: Runner,
    pub runner_path: Option<Seq<char>>,
    pub node_binary: Seq<char>,
}

impl View for CliEntry {
    type V = EntryView;

    open spec fn view(&self) -> EntryView {
        EntryView {
            entry: self.entry@,
            runner: self.runner,
            runner_path: match self.runner_path {
                Some(p) => Some(p@),
                None => None,
            },
            node_binary: self.node_binary@,
        }
    }
}

/// A command line run by the user's login shell.
#[derive(Debug)]
pub struct ShellCommand {
    pub shell: String,
    pub args: Vec<String>,
}

/// A program run directly with its arguments.
#[derive(Debug)]
pub struct DirectCommand {
    pub program: String,
    pub args: Vec<String>,
}

/// The two ways of launching the server.
#[derive(Debug)]
pub enum ShellCommandType {
    UserShell(ShellCommand),
    Direct(DirectCommand),
}

/// Why no entry could be resolved.
#[derive(Debug, Clone, Copy, PartialEq, Eq, Structural)]
pub enum LaunchError {
    /// Neither a built script nor the development sources were found.
    EntryNotFound,
    /// The runtime binary is not on the search path.
    RuntimeNotFound,
}

impl LaunchError {
    /// The message shown for the error.
    pub fn message(&self) -> (r: String)
        ensures
            r@ == launch_error_message(*self),
    {
        match self {
            LaunchError::EntryNotFound => String::from_str(
                "Unable to locate CodeNomad CLI build (dist/bin.js). Please build @neuralnomads/codenomad.",
            ),
            LaunchError::RuntimeNotFound => String::from_str(
                "Node binary not found. Make sure Node.js is installed.",
            ),
        }
    }
}

/// The message of each error.
pub open spec fn launch_error_message(e: LaunchError) -> Seq<char> {
    match e {
        LaunchError::EntryNotFound => "Unable to locate CodeNomad CLI build (dist/bin.js). Please build @neuralnomads/codenomad."@,
        LaunchError::RuntimeNotFound => "Node binary not found. Make sure Node.js is installed."@,
    }
}

/// The server's arguments: `serve --host <host> --port 0`, and in development mode
/// the development UI server and debug logging.
pub open spec fn cli_args(dev: bool, host: Seq<char>) -> Seq<Seq<char>> {
    let base = seq!["serve"@, "--host"@, host, "--port"@, "0"@];
    if dev {
        base + seq!["--ui-dev-server"@, "http://localhost:3000"@, "--log-level"@, "debug"@]
    } else {
        base
    }
}

/// What follows the runtime binary: the runner's script when the runner is the
/// transpiling one and its script is known, the entry, then the server's arguments.
pub open spec fn runner_args_of(e: EntryView, cli: Seq<Seq<char>>) -> Seq<Seq<char>> {
    let runner = if e.runner == Runner::Tsx && e.runner_path is Some {
        seq![e.runner_path->0]
    } else {
        Seq::empty()
    };
    runner + seq![e.entry] + cli
}

/// The parts joined with `sep` between each two.
pub open spec fn join(parts: Seq<Seq<char>>, sep: Seq<char>) -> Seq<char>
    decreases parts.len(),
{
    if parts.len() == 0 {
        Seq::empty()
    } else if parts.len() == 1 {
        parts[0]
    } else {
        join(parts.drop_last(), sep) + sep + parts.last()
    }
}

/// The shell command line that runs the server: the script marker, `exec`, then the
/// runtime binary and its arguments, each escaped for the shell.
pub open spec fn shell_line(e: EntryView, cli: Seq<Seq<char>>) -> Seq<char> {
    "ELECTRON_RUN_AS_NODE=1 exec "@ + join(
        (seq![e.node_binary] + runner_args_of(e, cli)).map_values(|t: Seq<char>| shell_escaped(t)),
        " "@,
    )
}

/// The arguments given to a shell whose lower-case name is `name` so that it runs
/// `command` as a login shell; a shell of the zsh family is made interactive too,
/// so that it loads the user's configuration.
pub open spec fn shell_args_of(name: Seq<char>, command: Seq<char>) -> Seq<Seq<char>> {
    if contains(name, "zsh"@) {
        seq!["-l"@, "-i"@, "-c"@, command]
    } else {
        seq!["-l"@, "-c"@, command]
    }
}

/// The last component of a path, as `Path::file_name` gives it, or an empty text.
pub uninterp spec fn file_name_of(path: Seq<char>) -> Seq<char>;

/// Relies on `Path::file_name` and `OsStr::to_str`: the last component of the path,
/// empty where there is none; it depends on the path alone.
#[verifier::external_body]
fn file_name(path: &str) -> (r: String)
    ensures
        r@ == file_name_of(path@),
{
    std::path::Path::new(path).file_name().and_then(|n| n.to_str()).unwrap_or("").to_string()
}

fn push_str(v: &mut Vec<String>, s: &str)
    ensures
        strs(final(v)@) == strs(old(v)@).push(s@),
{
    v.push(String::from_str(s));
    assert(strs(final(v)@) =~= strs(old(v)@).push(s@));
}

fn push_string(v: &mut Vec<String>, s: String)
    ensures
        strs(final(v)@) == strs(old(v)@).push(s@),
{
    v.push(s);
    assert(strs(final(v)@) =~= strs(old(v)@).push(s@));
}

fn extend_strings(v: &mut Vec<String>, more: &Vec<String>)
    ensures
        strs(final(v)@) == strs(old(v)@) + strs(more@),
{
    let mut i: usize = 0;
    assert(strs(more@).subrange(0, 0) =~= Seq::<Seq<char>>::empty());
    assert(strs(v@) =~= strs(old(v)@) + strs(more@).subrange(0, 0));
    while i < more.len()
        invariant
            i <= more@.len(),
            strs(v@) == strs(old(v)@) + strs(more@).subrange(0, i as int),
        decreases more@.len() - i,
    {
        push_string(v, more[i].clone());
        assert(strs(more@).subrange(0, i + 1) =~= strs(more@).subrange(0, i as int).push(more@[i as int]@));
        i = i + 1;
    }
    assert(strs(more@).subrange(0, i as int) =~= strs(more@));
}

impl CliEntry {
    /// The arguments of the server process.
    pub fn build_args(&self, dev: bool, host: &str) -> (r: Vec<String>)
        ensures
            strs(r@) == cli_args(dev, host@),
    {
        let mut args: Vec<String> = Vec::new();
        push_str(&mut args, "serve");
        push_str(&mut args, "--host");
        push_str(&mut args, host);
        push_str(&mut args, "--port");
        push_str(&mut args, "0");
        if dev {
            push_str(&mut args, "--ui-dev-server");
            push_str(&mut args, "http://localhost:3000");
            push_str(&mut args, "--log-level");
            push_str(&mut args, "debug");
        }
        assert(strs(args@) =~= cli_args(dev, host@));
        args
    }

    /// The arguments that follow the runtime binary.
    pub fn runner_args(&self, cli_args: &Vec<String>) -> (r: Vec<String>)
        ensures
            strs(r@) == runner_args_of(self@, strs(cli_args@)),
    {
        let mut args: Vec<String> = Vec::new();
        if self.runner == Runner::Tsx {
            match &self.runner_path {
                Some(path) => push_string(&mut args, path.clone()),
                None => {},
            }
        }
        push_string(&mut args, self.entry.clone());
        extend_strings(&mut args, cli_args);
        assert(strs(args@) =~= runner_args_of(self@, strs(cli_args@)));
        args
    }

    /// Chooses what to run: in development mode, the transpiling runner on the
    /// development sources where both were found; else the built script, where one
    /// was found; else the error that no entry exists.
    pub fn resolve(
        dev: bool,
        node_binary: String,
        tsx: Option<String>,
        dev_entry: Option<String>,
        dist_entry: Option<String>,
    ) -> (r: Result<CliEntry, LaunchError>)
        ensures
            dev && tsx is Some && dev_entry is Some ==> (r matches Ok(e) && e@ == (EntryView {
                entry: dev_entry->0@,
                runner: Runner::Tsx,
                runner_path: Some(tsx->0@),
                node_binary: node_binary@,
            })),
            !(dev && tsx is Some && dev_entry is Some) && dist_entry is Some ==> (r matches Ok(e)
                && e@ == (EntryView {
                entry: dist_entry->0@,
                runner: Runner::Node,
                runner_path: None,
                node_binary: node_binary@,
            })),
            !(dev && tsx is Some && dev_entry is Some) && dist_entry is None ==> r == Err::<
                CliEntry,
                LaunchError,
            >(LaunchError::EntryNotFound),
    {
        if dev {
            match (tsx, dev_entry) {
                (Some(t), Some(d)) => {
                    return Ok(CliEntry { entry: d, runner: Runner::Tsx, runner_path: Some(t), node_binary });
                },
                _ => {},
            }
        }
        match dist_entry {
            Some(d) => Ok(CliEntry { entry: d, runner: Runner::Node, runner_path: None, node_binary }),
            None => Err(LaunchError::EntryNotFound),
        }
    }
}

/// Appends `parts`, each escaped for the shell and separated by a space, to `out`.
fn push_escaped_joined(out: &mut String, parts: &Vec<String>)
    ensures
        final(out)@ == old(out)@ + join(strs(parts@).map_values(|t: Seq<char>| shell_escaped(t)), " "@),
{
    let ghost esc = strs(parts@).map_values(|t: Seq<char>| shell_escaped(t));
    let mut i: usize = 0;
    assert(esc.subrange(0, 0) =~= Seq::<Seq<char>>::empty());
    while i < parts.len()
        invariant
            i <= parts@.len(),
            esc == strs(parts@).map_values(|t: Seq<char>| shell_escaped(t)),
            out@ == old(out)@ + join(esc.subrange(0, i as int), " "@),
        decreases parts@.len() - i,
    {
        let piece = shell_escape(parts[i].as_str());
        let ghost sub = esc.subrange(0, i + 1);
        assert(sub.drop_last() =~= esc.subrange(0, i as int));
        assert(sub.last() == piece@);
        if i > 0 {
            out.append(" ");
            out.append(piece.as_str());
            assert(out@ =~= old(out)@ + join(sub, " "@));
        } else {
            out.append(piece.as_str());
            assert(out@ =~= old(out)@ + join(sub, " "@));
        }
        i = i + 1;
    }
    assert(esc.subrange(0, i as int) =~= esc);
}

/// The user-shell command that runs `entry` with `cli_args` in `shell`.
pub fn build_shell_command_string(entry: &CliEntry, cli_args: &Vec<String>, shell: String) -> (r: ShellCommand)
    ensures
        r.shell@ == shell@,
        strs(r.args@) == shell_args_of(
            lower_of(file_name_of(shell@)),
            shell_line(entry@, strs(cli_args@)),
        ),
{
    let mut tokens: Vec<String> = Vec::new();
    push_string(&mut tokens, entry.node_binary.clone());
    let rest = entry.runner_args(cli_args);
    extend_strings(&mut tokens, &rest);
    let mut command = String::from_str("ELECTRON_RUN_AS_NODE=1 exec ");
    push_escaped_joined(&mut command, &tokens);
    assert(strs(tokens@) =~= seq![entry@.node_binary] + runner_args_of(entry@, strs(cli_args@)));
    let args = build_shell_args(shell.as_str(), command.as_str());
    ShellCommand { shell, args }
}

/// The arguments that make `shell` run `command` as a login shell.
pub fn build_shell_args(shell: &str, command: &str) -> (r: Vec<String>)
    ensures
        strs(r@) == shell_args_of(lower_of(file_name_of(shell@)), command@),
{
    let name = lowercase(file_name(shell).as_str());
    shell_args_for_name(name.as_str(), command)
}

/// The arguments that make a shell whose lower-case name is `name` run `command`
/// as a login shell.
pub fn shell_args_for_name(name: &str, command: &str) -> (r: Vec<String>)
    ensures
        strs(r@) == shell_args_of(name@, command@),
{
    let mut args: Vec<String> = Vec::new();
    push_str(&mut args, "-l");
    if contains_exec(&chars_vec(name), &chars_vec("zsh")) {
        push_str(&mut args, "-i");
    }
    push_str(&mut args, "-c");
    push_str(&mut args, command);
    assert(strs(args@) =~= shell_args_of(name@, command@));
    args
}

/// Whether the server is launched through the user's login shell: on the `unix`
/// family of operating systems.
pub fn supports_user_shell(family: &str) -> (r: bool)
    ensures
        r == (family@ == "unix"@),
{
    str_eq(family, "unix")
}

/// How the server is launched: through `shell` where the user shell is used,
/// else the runtime binary directly with its arguments.
pub fn plan_command(entry: &CliEntry, cli_args: &Vec<String>, user_shell: bool, shell: String) -> (r: ShellCommandType)
    ensures
        user_shell ==> (r matches ShellCommandType::UserShell(c) && c.shell@ == shell@
            && strs(c.args@) == shell_args_of(
            lower_of(file_name_of(shell@)),
            shell_line(entry@, strs(cli_args@)),
        )),
        !user_shell ==> (r matches ShellCommandType::Direct(c) && c.program@ == entry@.node_binary
            && strs(c.args@) == runner_args_of(entry@, strs(cli_args@))),
{
    if user_shell {
        ShellCommandType::UserShell(build_shell_command_string(entry, cli_args, shell))
    } else {
        ShellCommandType::Direct(DirectCommand {
            program: entry.node_binary.clone(),
            args: entry.runner_args(cli_args),
        })
    }
}

} // verus!
