//! The executables of a compose file and the commands that run them.

use std::collections::HashMap;
use new_string_template::error::TemplateError;
use std::string::FromUtf8Error;
use vstd::prelude::*;
use crate::text::{split_on, split_on_char, string_of};

verus! {

/// A program of the cluster: what it is called, where it lives, the ports it
/// reads from and writes to, and how it is to be started.
#[derive(Debug, Clone, PartialEq)]
pub struct Executable {
    pub name: String,
    pub path: String,
    pub inputs: Vec<String>,
    pub outputs: Vec<String>,
    pub arg_template: String,
    pub env_template: HashMap<String, String>,
    pub exe_type: ExecutableType,
}

/// How an executable is started: as a program of its own, or as a Python
/// script run by an interpreter of the given environment.
#[derive(Debug, Clone, PartialEq, Eq)]
pub enum ExecutableType {
    CustomExecutable,
    PythonScript(PythonEnvironment),
}

/// The Python interpreter that runs a script.
#[derive(Debug, Clone, PartialEq, Eq)]
pub enum PythonEnvironment {
    Conda { conda_path: String, conda_env: String },
    VirtualEnv { venv: String },
    System,
}

/// A command to run, as a `tokio::process::Command` is built up: the program,
/// its arguments, the changes to the environment in the order they were made
/// (`Some` sets a variable, `None` removes it), whether the inherited
/// environment is cleared first, the working directory, and whether the child
/// is killed when the handle is dropped.
#[derive(Debug, Clone, PartialEq, Eq)]
pub struct CommandSpec {
    pub program: String,
    pub args: Vec<String>,
    pub envs: Vec<(String, Option<String>)>,
    pub env_clear: bool,
    pub current_dir: Option<String>,
    pub kill_on_drop: bool,
}

/// A command as text.
pub struct CommandView {
    pub program: Seq<char>,
    pub args: Seq<Seq<char>>,
    pub envs: Seq<(Seq<char>, Option<Seq<char>>)>,
    pub env_clear: bool,
    pub current_dir: Option<Seq<char>>,
    pub kill_on_drop: bool,
}

impl View for CommandSpec {
    type V = CommandView;

    open spec fn view(&self) -> CommandView {
        CommandView {
            program: self.program@,
            args: self.args.deep_view(),
            envs: self.envs.deep_view(),
            env_clear: self.env_clear,
            current_dir: self.current_dir.deep_view(),
            kill_on_drop: self.kill_on_drop,
        }
    }
}

impl CommandSpec {
    /// `program` with `args` and the variables `envs` changed, in the inherited
    /// environment and working directory.
    pub fn new(program: String, args: Vec<String>, envs: Vec<(String, Option<String>)>) -> (cmd: CommandSpec)
        ensures
            cmd@ == plain_command(program@, args.deep_view(), envs.deep_view()),
    {
        CommandSpec { program, args, envs, env_clear: false, current_dir: None, kill_on_drop: false }
    }

    /// Appends an argument, as `Command::arg`.
    pub fn arg(&mut self, arg: String)
        ensures
            final(self)@ == (CommandView { args: old(self)@.args.push(arg@), ..old(self)@ }),
    {
        self.args.push(arg);
        proof {
            assert(final(self)@.args =~= old(self)@.args.push(arg@));
        }
    }

    /// Sets a variable, as `Command::env`.
    pub fn env(&mut self, key: String, value: String)
        ensures
            final(self)@ == (CommandView { envs: old(self)@.envs.push((key@, Some(value@))), ..old(self)@ }),
    {
        self.envs.push((key, Some(value)));
        proof {
            assert(final(self)@.envs =~= old(self)@.envs.push((key@, Some(value@))));
        }
    }

    /// Removes a variable, as `Command::env_remove`.
    pub fn env_remove(&mut self, key: String)
        ensures
            final(self)@ == (CommandView { envs: old(self)@.envs.push((key@, None)), ..old(self)@ }),
    {
        self.envs.push((key, None));
        proof {
            assert(final(self)@.envs =~= old(self)@.envs.push((key@, None)));
        }
    }

    /// Clears the environment, as `Command::env_clear`: the inherited variables
    /// and every change made so far are dropped.
    pub fn env_clear(&mut self)
        ensures
            final(self)@ == (CommandView { envs: Seq::empty(), env_clear: true, ..old(self)@ }),
    {
        self.envs = Vec::new();
        self.env_clear = true;
        proof {
            assert(final(self)@.envs =~= Seq::<(Seq<char>, Option<Seq<char>>)>::empty());
        }
    }

    /// Sets the working directory, as `Command::current_dir`.
    pub fn current_dir(&mut self, dir: String)
        ensures
            final(self)@ == (CommandView { current_dir: Some(dir@), ..old(self)@ }),
    {
        self.current_dir = Some(dir);
    }

    /// Sets whether the child is killed when its handle is dropped, as `Command::kill_on_drop`.
    pub fn kill_on_drop(&mut self, kill_on_drop: bool)
        ensures
            final(self)@ == (CommandView { kill_on_drop, ..old(self)@ }),
    {
        self.kill_on_drop = kill_on_drop;
    }
}

/// A command that runs `program` with `args` and the variables `envs` set, in
/// the inherited environment and working directory.
pub open spec fn plain_command(program: Seq<char>, args: Seq<Seq<char>>, envs: Seq<(Seq<char>, Option<Seq<char>>)>) -> CommandView {
    CommandView { program, args, envs, env_clear: false, current_dir: None, kill_on_drop: false }
}

/// The interpreter inside a virtual environment: `bin` and then `python3`
/// pushed onto `venv` as `PathBuf` pushes components on the target platform.
pub uninterp spec fn venv_python_path(venv: Seq<char>) -> Seq<char>;

/// `[venv, "bin", "python3"].iter().collect::<PathBuf>()`, as text. Trusted: the
/// path is named, not stated, for `PathBuf::push` joins with the platform's
/// separator and, on Windows, rebuilds prefixed paths; on Unix it is `venv`,
/// a `/` unless `venv` is empty or ends in one, then `bin/python3`.
#[verifier::external_body]
fn venv_python(venv: &str) -> (path: String)
    ensures
        path@ == venv_python_path(venv@),
{
    let path: std::path::PathBuf = [venv, "bin", "python3"].iter().collect();
    path.to_string_lossy().into_owned()
}

/// The command that starts the interpreter of `env`, before any arguments of the script.
pub open spec fn python_command(env: PythonEnvironment) -> CommandView {
    match env {
        PythonEnvironment::Conda { conda_path, conda_env } => plain_command(
            conda_path@,
            seq!["run"@, "-p"@, conda_env@, "python"@],
            Seq::empty(),
        ),
        PythonEnvironment::VirtualEnv { venv } => plain_command(
            venv_python_path(venv@),
            Seq::empty(),
            seq![("VIRTUAL_ENV"@, Some(venv@))],
        ),
        PythonEnvironment::System => plain_command("python3"@, Seq::empty(), Seq::empty()),
    }
}

/// `command` with `extra` appended to its arguments.
pub open spec fn with_args(command: CommandView, extra: Seq<Seq<char>>) -> CommandView {
    CommandView { args: command.args + extra, ..command }
}

/// A program of its own: started at `path`, with the rendered argument template
/// split at each space.
pub open spec fn custom_command(path: Seq<char>, rendered: Seq<char>) -> CommandView {
    plain_command(path, split_on(rendered, ' '), Seq::empty())
}

/// What `format!("{:?}", command)` writes for the `tokio::process::Command` made
/// by `Command::new(program)`, then `args(args)`, `env_clear()` where
/// `env_clear` holds, `env(key, value)` or `env_remove(key)` for each change in
/// order, `current_dir(dir)` where one is given, and `kill_on_drop(kill_on_drop)`.
pub uninterp spec fn tokio_command_debug(
    program: Seq<char>,
    args: Seq<Seq<char>>,
    envs: Seq<(Seq<char>, Option<Seq<char>>)>,
    env_clear: bool,
    current_dir: Option<Seq<char>>,
    kill_on_drop: bool,
) -> Seq<char>;

/// Builds the `tokio::process::Command` of `cmd`, each field passed to the
/// method that sets it, and formats it with `{:?}`. Trusted: the text is named,
/// not stated; it is what tokio's derived `Debug` and std's `Debug` for
/// `Command` print for this command.
#[verifier::external_body]
fn command_debug_text(cmd: &CommandSpec) -> (text: String)
    ensures
        text@ == tokio_command_debug(
            cmd.program@,
            cmd.args.deep_view(),
            cmd.envs.deep_view(),
            cmd.env_clear,
            cmd.current_dir.deep_view(),
            cmd.kill_on_drop,
        ),
{
    let mut command = tokio::process::Command::new(&cmd.program);
    command.args(&cmd.args);
    if cmd.env_clear { command.env_clear(); }
    for (key, value) in &cmd.envs {
        match value {
            Some(value) => command.env(key, value),
            None => command.env_remove(key),
        };
    }
    if let Some(dir) = &cmd.current_dir { command.current_dir(dir); }
    command.kill_on_drop(cmd.kill_on_drop);
    format!("{:?}", command)
}

/// The text of an argument template with its `{name}` placeholders filled in,
/// or `None` where a placeholder has no value.
pub uninterp spec fn rendered_template(template: Seq<char>, values: Map<&str, String>) -> Option<Seq<char>>;

#[verifier::external_type_specification]
#[verifier::external_body]
pub struct ExTemplateError(TemplateError);

/// `Template::new(template).render(values)` of new_string_template. Trusted:
/// the rendered text is named, not stated; the one fact stated is that a
/// template without `{` has no placeholder, so the crate hands it back as it is.
#[verifier::external_body]
fn render_template(template: &str, values: &HashMap<&str, String>) -> (r: Result<String, TemplateError>)
    ensures
        r matches Ok(text) ==> rendered_template(template@, values@) == Some(text@),
        r is Err ==> rendered_template(template@, values@) is None,
        !template@.contains('{') ==> r is Ok,
        r matches Ok(text) ==> (!template@.contains('{') ==> text@ == template@),
{
    new_string_template::template::Template::new(template).render(values)
}

/// `String::from_utf8` gives the decoded text exactly when the bytes are valid UTF-8.
pub assume_specification[ String::from_utf8 ](vec: Vec<u8>) -> (r: Result<String, FromUtf8Error>)
    ensures
        r is Ok <==> vstd::utf8::valid_utf8(vec@),
        r matches Ok(text) ==> text@ == vstd::utf8::decode_utf8(vec@),
;

#[verifier::external_type_specification]
#[verifier::external_body]
pub struct ExFromUtf8Error(FromUtf8Error);

/// Why an executable could not be given a command line.
#[derive(Debug)]
pub enum LaunchError {
    /// The argument template names a value that was not given; the template
    /// crate's error says which.
    MissingTemplateData(TemplateError),
}

/// Why running a command gave no usable output.
#[derive(Debug, PartialEq, Eq)]
pub enum RunError {
    /// The output was not valid UTF-8; the decoding error is given.
    InvalidUtf8(FromUtf8Error),
    /// The command failed; its error output is given.
    Failed(String),
}

/// What a finished command gives back: its standard output when it succeeded,
/// else its error output, each decoded as UTF-8.
pub fn interpret_output(success: bool, stdout: Vec<u8>, stderr: Vec<u8>) -> (r: Result<String, RunError>)
    ensures
        success && vstd::utf8::valid_utf8(stdout@) ==> (r matches Ok(text) && text@ == vstd::utf8::decode_utf8(stdout@)),
        success && !vstd::utf8::valid_utf8(stdout@) ==> r matches Err(RunError::InvalidUtf8(_)),
        !success && vstd::utf8::valid_utf8(stderr@) ==> (r matches Err(RunError::Failed(message))
            && message@ == vstd::utf8::decode_utf8(stderr@)),
        !success && !vstd::utf8::valid_utf8(stderr@) ==> r matches Err(RunError::InvalidUtf8(_)),
{
    if success {
        match String::from_utf8(stdout) {
            Ok(text) => Ok(text),
            Err(e) => Err(RunError::InvalidUtf8(e)),
        }
    } else {
        match String::from_utf8(stderr) {
            Ok(message) => Err(RunError::Failed(message)),
            Err(e) => Err(RunError::InvalidUtf8(e)),
        }
    }
}

/// The packages of a `pip list --format=freeze` output: its lines, as split at each newline.
pub fn parse_pip_list(list: &str) -> (packages: Vec<String>)
    ensures
        packages.deep_view() == split_on(list@, '\n'),
{
    split_on_char(list, '\n')
}

/// A fresh executable, as the editor adds it: named "未命名", at
/// "./untitled", with no ports, an empty argument template and environment,
/// started as a program of its own.
pub open spec fn is_fresh_executable(exe: Executable) -> bool {
    &&& exe.name@ == "未命名"@
    &&& exe.path@ == "./untitled"@
    &&& exe.arg_template@ == ""@
    &&& exe.env_template@ == Map::<String, String>::empty()
    &&& exe.exe_type == ExecutableType::CustomExecutable
    &&& exe.inputs@.len() == 0
    &&& exe.outputs@.len() == 0
}

impl Executable {
    /// A fresh executable.
    pub fn default() -> (exe: Executable)
        ensures
            is_fresh_executable(exe),
    {
        Executable {
            name: string_of("未命名"),
            path: string_of("./untitled"),
            arg_template: string_of(""),
            env_template: HashMap::new(),
            exe_type: ExecutableType::CustomExecutable,
            inputs: Vec::new(),
            outputs: Vec::new(),
        }
    }
}

impl Executable {
    /// The command line of a program of its own, once its argument template is rendered.
    pub fn command_from_rendered(&self, rendered: &str) -> (cmd: CommandSpec)
        ensures
            cmd@ == custom_command(self.path@, rendered@),
    {
        let cmd = CommandSpec::new(self.path.clone(), split_on_char(rendered, ' '), Vec::new());
        proof {
            assert(cmd@.envs =~= Seq::<(Seq<char>, Option<Seq<char>>)>::empty());
        }
        cmd
    }

    /// The command line that starts a program of its own: the argument template
    /// rendered with `values`, split at each space. Fails where the template names
    /// a value that `values` lacks.
    pub fn launch_command(&self, values: &HashMap<&str, String>) -> (r: Result<CommandSpec, LaunchError>)
        requires
            self.exe_type == ExecutableType::CustomExecutable,
        ensures
            match rendered_template(self.arg_template@, values@) {
                Some(text) => r matches Ok(cmd) && cmd@ == custom_command(self.path@, text),
                None => r matches Err(LaunchError::MissingTemplateData(_)),
            },
    {
        match render_template(self.arg_template.as_str(), values) {
            Ok(text) => Ok(self.command_from_rendered(text.as_str())),
            Err(e) => Err(LaunchError::MissingTemplateData(e)),
        }
    }
}

impl ExecutableType {
    /// An executable is, unless the compose file says otherwise, a program of its own.
    pub fn default() -> (t: ExecutableType)
        ensures
            t == ExecutableType::CustomExecutable,
    {
        ExecutableType::CustomExecutable
    }
}

impl PythonEnvironment {
    /// The command that starts this environment's interpreter.
    pub fn get_command(&self) -> (cmd: CommandSpec)
        ensures
            cmd@ == python_command(*self),
    {
        match self {
            PythonEnvironment::Conda { conda_path, conda_env } => {
                let mut args: Vec<String> = Vec::new();
                args.push(string_of("run"));
                args.push(string_of("-p"));
                args.push(conda_env.clone());
                args.push(string_of("python"));
                proof {
                    assert(args.deep_view() =~= python_command(*self).args);
                }
                let cmd = CommandSpec::new(conda_path.clone(), args, Vec::new());
                proof {
                    assert(cmd@.envs =~= python_command(*self).envs);
                }
                cmd
            },
            PythonEnvironment::VirtualEnv { venv } => {
                let program = venv_python(venv.as_str());
                let mut envs: Vec<(String, Option<String>)> = Vec::new();
                envs.push((string_of("VIRTUAL_ENV"), Some(venv.clone())));
                proof {
                    assert(envs.deep_view() =~= python_command(*self).envs);
                }
                let cmd = CommandSpec::new(program, Vec::new(), envs);
                proof {
                    assert(cmd@.args =~= python_command(*self).args);
                }
                cmd
            },
            PythonEnvironment::System => {
                let cmd = CommandSpec::new(string_of("python3"), Vec::new(), Vec::new());
                proof {
                    assert(cmd@.program =~= python_command(*self).program);
                    assert(cmd@.args =~= python_command(*self).args);
                    assert(cmd@.envs =~= python_command(*self).envs);
                }
                cmd
            },
        }
    }
}

impl PythonEnvironment {
    /// This environment's interpreter command with `extra_args` after it.
    pub fn command_with_args(&self, extra_args: &Vec<String>) -> (cmd: CommandSpec)
        ensures
            cmd@ == with_args(python_command(*self), extra_args.deep_view()),
    {
        let mut cmd = self.get_command();
        let ghost start = cmd.args.deep_view();
        let mut i: usize = 0;
        while i < extra_args.len()
            invariant
                i <= extra_args.len(),
                cmd@.program == python_command(*self).program,
                cmd@.envs == python_command(*self).envs,
                cmd@.env_clear == python_command(*self).env_clear,
                cmd@.current_dir == python_command(*self).current_dir,
                cmd@.kill_on_drop == python_command(*self).kill_on_drop,
                start == python_command(*self).args,
                cmd.args.deep_view() == start + extra_args.deep_view().take(i as int),
            decreases extra_args.len() - i,
        {
            let arg = extra_args[i].clone();
            let ghost before = cmd.args@;
            let ghost before_deep = cmd.args.deep_view();
            cmd.args.push(arg);
            proof {
                let target = start + extra_args.deep_view().take(i + 1);
                assert(before_deep.len() == before.len());
                assert(target.len() == cmd.args.deep_view().len());
                assert forall|k: int| 0 <= k < before.len() implies cmd.args.deep_view()[k] == before_deep[k] by {
                    assert(cmd.args@[k] == before[k]);
                }
                assert forall|k: int| 0 <= k < before.len() implies target[k] == before_deep[k] by {
                    if k >= start.len() {
                        assert(target[k] == extra_args.deep_view()[k - start.len()]);
                    }
                }
                assert(cmd.args.deep_view() =~= target);
            }
            i = i + 1;
        }
        proof {
            assert(extra_args.deep_view().take(i as int) =~= extra_args.deep_view());
        }
        cmd
    }

    /// The text of the command that `things` makes of this interpreter's
    /// command, as `{:?}` prints the tokio command.
    pub fn dry_run(&self, things: impl FnOnce(CommandSpec) -> CommandSpec) -> (text: String)
        requires
            forall|start: CommandSpec| start@ == python_command(*self) ==> call_requires(things, (start,)),
        ensures
            exists|start: CommandSpec, made: CommandSpec|
                start@ == python_command(*self) && call_ensures(things, (start,), made) && text@
                    == tokio_command_debug(
                    made.program@,
                    made.args.deep_view(),
                    made.envs.deep_view(),
                    made.env_clear,
                    made.current_dir.deep_view(),
                    made.kill_on_drop,
                ),
    {
        let start = self.get_command();
        let made = things(start);
        command_debug_text(&made)
    }

    /// The command that asks the interpreter for its version: `-VV`.
    pub fn py_version_command(&self) -> (cmd: CommandSpec)
        ensures
            cmd@ == with_args(python_command(*self), seq!["-VV"@]),
    {
        let mut extra: Vec<String> = Vec::new();
        extra.push(string_of("-VV"));
        proof {
            assert(extra.deep_view() =~= seq!["-VV"@]);
        }
        self.command_with_args(&extra)
    }

    /// The command that lists the installed packages: `-m pip list --format=freeze`.
    pub fn pip_list_command(&self) -> (cmd: CommandSpec)
        ensures
            cmd@ == with_args(python_command(*self), seq!["-m"@, "pip"@, "list"@, "--format=freeze"@]),
    {
        let mut extra: Vec<String> = Vec::new();
        extra.push(string_of("-m"));
        extra.push(string_of("pip"));
        extra.push(string_of("list"));
        extra.push(string_of("--format=freeze"));
        proof {
            assert(extra.deep_view() =~= seq!["-m"@, "pip"@, "list"@, "--format=freeze"@]);
        }
        self.command_with_args(&extra)
    }
}

} // verus!
