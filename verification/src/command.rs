//! Builds that run a command: from the declared command text to the program
//! to start, and from what the program left behind to the build's result.

use vstd::prelude::*;
use vstd::utf8::{decode_utf8, decode_utf8_encode_utf8, encode_utf8, valid_utf8};
use crate::outcome::viewed;
use crate::variables::{
    build_values, substitute_variables, substituted, Config, ExternalDependencies, LuaInstallation,
    RockLayout, SubstitutionFault, VariableSubstitutionError,
};

verus! {

/// The diagnostic of the tokenizer.
#[verifier::external_type_specification]
#[verifier::external_body]
pub struct ExParseError(shell_words::ParseError);

/// How a finished process reported itself to its parent.
#[derive(Clone, Copy, Debug, PartialEq, Eq, Structural)]
pub struct ExitStatus {
    /// The exit code, or `None` when the process was ended by a signal.
    pub code: Option<i32>,
}

impl ExitStatus {
    /// A process succeeded exactly when it exited with code zero.
    pub open spec fn spec_success(&self) -> bool {
        self.code == Some(0i32)
    }

    /// Whether the process succeeded.
    #[verifier::when_used_as_spec(spec_success)]
    pub fn success(&self) -> (ok: bool)
        ensures
            ok == self.spec_success(),
    {
        match self.code {
            Some(c) => c == 0,
            None => false,
        }
    }
}

/// What became of a program that the caller was asked to start.
#[derive(Clone, Debug, PartialEq, Eq)]
pub enum ProcessOutcome {
    /// The operating system could not start the program or wait for it; `err`
    /// is its message.
    Failed { err: String },
    /// The program ran to its end. `stdout` and `stderr` hold everything it
    /// wrote.
    Exited { status: ExitStatus, stdout: Vec<u8>, stderr: Vec<u8> },
}

/// A program to start.
#[derive(Clone, Debug, PartialEq, Eq)]
pub struct Invocation {
    pub program: String,
    pub args: Vec<String>,
    /// The directory in which the program is to run.
    pub current_dir: String,
}

/// The mathematical model of [`Invocation`].
pub ghost struct InvocationModel {
    pub program: Seq<char>,
    pub args: Seq<Seq<char>>,
    pub current_dir: Seq<char>,
}

impl View for Invocation {
    type V = InvocationModel;

    open spec fn view(&self) -> InvocationModel {
        InvocationModel {
            program: self.program@,
            args: self.args.deep_view(),
            current_dir: self.current_dir@,
        }
    }
}

/// Why a command did not run to a successful end.
#[derive(Clone, Debug, PartialEq, Eq)]
pub enum CommandError {
    /// The command holds no word at all.
    EmptyCommand,
    /// The command is not well-formed shell text.
    ParseError { err: String, command: String },
    /// The operating system could not start the program or wait for it.
    Io { err: String, command: String },
    /// The program ran and reported a failure.
    CommandFailure { command: String, status: ExitStatus, stdout: String, stderr: String },
    /// A placeholder of the command could not be replaced.
    VariableSubstitutionError(VariableSubstitutionError),
}

/// The mathematical model of [`CommandError`].
pub ghost enum CommandFault {
    EmptyCommand,
    ParseError { err: Seq<char>, command: Seq<char> },
    Io { err: Seq<char>, command: Seq<char> },
    CommandFailure { command: Seq<char>, status: ExitStatus, stdout: Seq<char>, stderr: Seq<char> },
    VariableSubstitutionError(SubstitutionFault),
}

impl View for CommandError {
    type V = CommandFault;

    open spec fn view(&self) -> CommandFault {
        match self {
            CommandError::EmptyCommand => CommandFault::EmptyCommand,
            CommandError::ParseError { err, command } => CommandFault::ParseError {
                err: err@,
                command: command@,
            },
            CommandError::Io { err, command } => CommandFault::Io { err: err@, command: command@ },
            CommandError::CommandFailure {
                command,
                status,
                stdout,
                stderr,
            } => CommandFault::CommandFailure {
                command: command@,
                status: *status,
                stdout: stdout@,
                stderr: stderr@,
            },
            CommandError::VariableSubstitutionError(error) => {
                CommandFault::VariableSubstitutionError(error@)
            },
        }
    }
}

/// The words into which `shell_words::split` breaks a command, or `None`
/// where it refuses the command.
pub uninterp spec fn shell_split(command: Seq<char>) -> Option<Seq<Seq<char>>>;

/// The text that `String::from_utf8_lossy` reads out of `bytes`.
pub uninterp spec fn utf8_lossy(bytes: Seq<u8>) -> Seq<char>;

/// Breaks a command into words as a Unix shell would.
///
/// Trusted: this is `shell_words::split`. Its result depends on the command
/// alone, so it is given the name `shell_split`. The function reads the
/// command once from the left and cannot panic; on a command without any
/// character it returns no words.
#[verifier::external_body]
fn split_words(command: &str) -> (words: Result<Vec<String>, shell_words::ParseError>)
    ensures
        match words {
            Ok(words) => shell_split(command@) == Some(words.deep_view()),
            Err(_) => shell_split(command@) is None,
        },
        command@.len() == 0 ==> words is Ok && words->Ok_0@.len() == 0,
{
    shell_words::split(command)
}

/// The tokenizer's diagnostic as text.
///
/// Trusted: this is the `Display` of `shell_words::ParseError`, which writes
/// the same three words whatever the error.
#[verifier::external_body]
fn diagnostic(err: &shell_words::ParseError) -> (text: String)
    ensures
        text@ == "missing closing quote"@,
{
    err.to_string()
}

/// Reads bytes as text.
///
/// Trusted: this is std's `String::from_utf8_lossy`. Bytes that are valid
/// UTF-8 are decoded as they stand; otherwise each invalid sequence is
/// replaced by U+FFFD, which is not spelled out here but named `utf8_lossy`.
#[verifier::external_body]
fn lossy_text(bytes: &[u8]) -> (text: String)
    ensures
        text@ == utf8_lossy(bytes@),
        valid_utf8(bytes@) ==> text@ == decode_utf8(bytes@),
{
    String::from_utf8_lossy(bytes).into_owned()
}

/// The program that `words` name, if any.
pub open spec fn invocation_from(
    command: Seq<char>,
    words: Option<Seq<Seq<char>>>,
    current_dir: Seq<char>,
) -> Result<InvocationModel, CommandFault> {
    match words {
        None => Err(CommandFault::ParseError { err: "missing closing quote"@, command }),
        Some(words) => if words.len() == 0 {
            Err(CommandFault::EmptyCommand)
        } else {
            Ok(InvocationModel { program: words[0], args: words.skip(1), current_dir })
        },
    }
}

/// Turns the words of `command` into a program and its arguments: the first
/// word is the program, the others are its arguments in order.
pub fn invocation_of(
    command: String,
    words: Result<Vec<String>, shell_words::ParseError>,
    current_dir: &str,
) -> (result: Result<Invocation, CommandError>)
    ensures
        viewed(result) == invocation_from(
            command@,
            match words {
                Ok(words) => Some(words.deep_view()),
                Err(_) => None,
            },
            current_dir@,
        ),
{
    match words {
        Err(err) => Err(CommandError::ParseError { err: diagnostic(&err), command }),
        Ok(mut words) => {
            if words.len() == 0 {
                Err(CommandError::EmptyCommand)
            } else {
                let ghost all = words.deep_view();
                let ghost before = words@;
                let program = words.remove(0);
                let invocation = Invocation {
                    program,
                    args: words,
                    current_dir: String::from_str(current_dir),
                };
                proof {
                    assert(before.remove(0) == before.skip(1));
                    assert(invocation.args.deep_view() =~= all.skip(1));
                    assert(invocation.program@ == all[0]);
                }
                Ok(invocation)
            }
        },
    }
}

/// The program that `command` asks for.
pub open spec fn parsed_command(command: Seq<char>, current_dir: Seq<char>) -> Result<
    InvocationModel,
    CommandFault,
> {
    invocation_from(command, shell_split(command), current_dir)
}

/// Breaks `command` into words and takes the first as the program to start
/// in `current_dir`.
pub fn parse_command(command: &str, current_dir: &str) -> (result: Result<
    Invocation,
    CommandError,
>)
    ensures
        viewed(result) == parsed_command(command@, current_dir@),
        command@.len() == 0 ==> result matches Err(CommandError::EmptyCommand),
{
    let words = split_words(command);
    invocation_of(String::from_str(command), words, current_dir)
}

/// A command whose placeholders were replaced and whose words were found.
#[derive(Clone, Debug, PartialEq, Eq)]
pub struct PreparedCommand {
    /// The command after substitution.
    pub command: String,
    pub invocation: Invocation,
}

/// The mathematical model of [`PreparedCommand`].
pub ghost struct PreparedModel {
    pub command: Seq<char>,
    pub invocation: InvocationModel,
}

impl View for PreparedCommand {
    type V = PreparedModel;

    open spec fn view(&self) -> PreparedModel {
        PreparedModel { command: self.command@, invocation: self.invocation@ }
    }
}

/// What preparing the command `template` yields: its placeholders are
/// replaced first, and the text that results is broken into words.
pub open spec fn prepared(
    template: Seq<char>,
    value_of: spec_fn(Seq<char>) -> Option<Seq<char>>,
    current_dir: Seq<char>,
) -> Result<PreparedModel, CommandFault> {
    match substituted(template, value_of) {
        Err(fault) => Err(CommandFault::VariableSubstitutionError(fault)),
        Ok(command) => match parsed_command(command, current_dir) {
            Err(fault) => Err(fault),
            Ok(invocation) => Ok(PreparedModel { command, invocation }),
        },
    }
}

/// Makes `command` ready to run in `build_dir`: replaces its placeholders and
/// finds the program and its arguments. Nothing is started.
pub fn prepare_command(
    command: &str,
    output_paths: &RockLayout,
    lua: &LuaInstallation,
    external_dependencies: &ExternalDependencies,
    config: &Config,
    build_dir: &str,
) -> (result: Result<PreparedCommand, CommandError>)
    ensures
        viewed(result) == prepared(
            command@,
            build_values(*output_paths, *lua, *external_dependencies, *config),
            build_dir@,
        ),
        command@.len() == 0 ==> result matches Err(CommandError::EmptyCommand),
{
    match substitute_variables(command, output_paths, lua, external_dependencies, config) {
        Err(error) => Err(CommandError::VariableSubstitutionError(error)),
        Ok(substituted_cmd) => match parse_command(substituted_cmd.as_str(), build_dir) {
            Err(error) => Err(error),
            Ok(invocation) => Ok(PreparedCommand { command: substituted_cmd, invocation }),
        },
    }
}

/// The failure that `outcome` means for the command that was run, if it
/// means one: a program that could not be started or awaited, or one that
/// ended otherwise than with exit code zero.
pub open spec fn outcome_fault(command: Seq<char>, outcome: ProcessOutcome) -> Option<
    CommandFault,
> {
    match outcome {
        ProcessOutcome::Failed { err } => Some(CommandFault::Io { err: err@, command }),
        ProcessOutcome::Exited { status, stdout, stderr } => if status.success() {
            None
        } else {
            Some(
                CommandFault::CommandFailure {
                    command,
                    status,
                    stdout: utf8_lossy(stdout@),
                    stderr: utf8_lossy(stderr@),
                },
            )
        },
    }
}

/// Judges a command by what became of its program.
///
/// A failure report holds all that the program wrote: where that is valid
/// UTF-8, the report's text encodes to the very bytes that were captured.
pub fn command_result(command: String, outcome: ProcessOutcome) -> (result: Result<
    (),
    CommandError,
>)
    ensures
        match result {
            Ok(_) => outcome_fault(command@, outcome) is None,
            Err(error) => outcome_fault(command@, outcome) == Some(error@),
        },
        result matches Err(CommandError::CommandFailure { stdout: out, stderr: err, .. })
            ==> outcome matches ProcessOutcome::Exited { stdout, stderr, .. } && (valid_utf8(
            stdout@,
        ) ==> encode_utf8(out@) == stdout@) && (valid_utf8(stderr@) ==> encode_utf8(err@)
            == stderr@),
{
    match outcome {
        ProcessOutcome::Failed { err } => Err(CommandError::Io { err, command }),
        ProcessOutcome::Exited { status, stdout, stderr } => {
            if status.success() {
                Ok(())
            } else {
                proof {
                    if valid_utf8(stdout@) {
                        decode_utf8_encode_utf8(stdout@);
                    }
                    if valid_utf8(stderr@) {
                        decode_utf8_encode_utf8(stderr@);
                    }
                }
                Err(
                    CommandError::CommandFailure {
                        command,
                        status,
                        stdout: lossy_text(stdout.as_slice()),
                        stderr: lossy_text(stderr.as_slice()),
                    },
                )
            }
        },
    }
}

/// What a finished build hands back to the caller.
#[derive(Clone, Debug, PartialEq, Eq)]
pub struct BuildInfo {
    /// The executables that the build installed by itself; none unless a
    /// backend says otherwise.
    pub binaries: Vec<String>,
}

impl View for BuildInfo {
    type V = Seq<Seq<char>>;

    open spec fn view(&self) -> Seq<Seq<char>> {
        self.binaries.deep_view()
    }
}

impl Default for BuildInfo {
    fn default() -> (info: Self)
        ensures
            info@ == Seq::<Seq<char>>::empty(),
    {
        let info = BuildInfo { binaries: Vec::new() };
        assert(info.binaries.deep_view() =~= Seq::<Seq<char>>::empty());
        info
    }
}

/// A build that runs one command to build and one to install.
#[derive(Clone, Debug, PartialEq, Eq)]
pub struct CommandBuildSpec {
    pub build_command: Option<String>,
    pub install_command: Option<String>,
}

/// The two phases of a command build, in the order in which they run.
#[derive(Clone, Copy, Debug, PartialEq, Eq, Structural)]
pub enum BuildPhase {
    Build,
    Install,
}

/// A phase whose program is to be started, or is running.
#[derive(Clone, Debug, PartialEq, Eq)]
pub struct Running {
    pub phase: BuildPhase,
    /// The phase's command after substitution.
    pub command: String,
    pub invocation: Invocation,
}

/// What a build asks of its caller next. `E` is the backend's own error.
#[derive(Debug, PartialEq, Eq)]
pub enum BuildStep<E> {
    /// Start the program, wait for its end, and come back with what became
    /// of it.
    Run(Running),
    /// The build is over.
    Done(Result<BuildInfo, E>),
}

/// A way to build a package. The backends are a fixed set, and each of them
/// builds in steps: it says which program to run, the caller runs it, and
/// the backend goes on from what became of the program.
pub trait Build {
    /// The failures of this backend.
    type Err;

    /// Begins the build: says which program to run first, or how the build
    /// ended without running any.
    ///
    /// Where the caller wants no install, no backend opens its install
    /// phase.
    fn start(
        &self,
        output_paths: &RockLayout,
        no_install: bool,
        lua: &LuaInstallation,
        external_dependencies: &ExternalDependencies,
        config: &Config,
        build_dir: &str,
    ) -> (step: BuildStep<Self::Err>)
        ensures
            no_install ==> !(step matches BuildStep::Run(next) && next.phase
                == BuildPhase::Install),
    ;

    /// Goes on after the program of `running` has ended with `outcome`: says
    /// which program to run next, or how the build ended.
    ///
    /// Nothing runs after the install phase, and where the caller wants no
    /// install, no backend opens it.
    fn resume(
        &self,
        running: Running,
        outcome: ProcessOutcome,
        output_paths: &RockLayout,
        no_install: bool,
        lua: &LuaInstallation,
        external_dependencies: &ExternalDependencies,
        config: &Config,
        build_dir: &str,
    ) -> (step: BuildStep<Self::Err>)
        ensures
            running.phase == BuildPhase::Install ==> step is Done,
            no_install ==> !(step matches BuildStep::Run(next) && next.phase
                == BuildPhase::Install),
    ;
}

/// The mathematical model of [`Running`].
pub ghost struct RunningModel {
    pub phase: BuildPhase,
    pub command: Seq<char>,
    pub invocation: InvocationModel,
}

/// The mathematical model of [`BuildStep`].
pub ghost enum BuildStepModel<F> {
    Run(RunningModel),
    Succeeded(Seq<Seq<char>>),
    Failed(F),
}

impl View for Running {
    type V = RunningModel;

    open spec fn view(&self) -> RunningModel {
        RunningModel { phase: self.phase, command: self.command@, invocation: self.invocation@ }
    }
}

impl<E: View> View for BuildStep<E> {
    type V = BuildStepModel<E::V>;

    open spec fn view(&self) -> BuildStepModel<E::V> {
        match self {
            BuildStep::Run(running) => BuildStepModel::Run(running@),
            BuildStep::Done(Ok(info)) => BuildStepModel::Succeeded(info@),
            BuildStep::Done(Err(error)) => BuildStepModel::Failed(error@),
        }
    }
}

/// The step that opens `phase`: where the phase declares no command, the
/// build goes on with `otherwise`; where its command cannot be prepared, the
/// build fails; else the command's program is to be run.
pub open spec fn phase_step(
    phase: BuildPhase,
    template: Option<Seq<char>>,
    value_of: spec_fn(Seq<char>) -> Option<Seq<char>>,
    build_dir: Seq<char>,
    otherwise: BuildStepModel<CommandFault>,
) -> BuildStepModel<CommandFault> {
    match template {
        None => otherwise,
        Some(template) => match prepared(template, value_of, build_dir) {
            Err(fault) => BuildStepModel::Failed(fault),
            Ok(ready) => BuildStepModel::Run(
                RunningModel { phase, command: ready.command, invocation: ready.invocation },
            ),
        },
    }
}

impl CommandBuildSpec {
    /// The step that follows a build phase that went well: the build is over
    /// if the caller wants no install, else the install phase opens.
    pub open spec fn after_build(
        &self,
        no_install: bool,
        value_of: spec_fn(Seq<char>) -> Option<Seq<char>>,
        build_dir: Seq<char>,
    ) -> BuildStepModel<CommandFault> {
        if no_install {
            BuildStepModel::Succeeded(Seq::empty())
        } else {
            phase_step(
                BuildPhase::Install,
                self.install_command.deep_view(),
                value_of,
                build_dir,
                BuildStepModel::Succeeded(Seq::empty()),
            )
        }
    }

    /// The first step of the build.
    pub open spec fn started(
        &self,
        no_install: bool,
        value_of: spec_fn(Seq<char>) -> Option<Seq<char>>,
        build_dir: Seq<char>,
    ) -> BuildStepModel<CommandFault> {
        phase_step(
            BuildPhase::Build,
            self.build_command.deep_view(),
            value_of,
            build_dir,
            self.after_build(no_install, value_of, build_dir),
        )
    }

    /// The step that follows the end of the program of `running`.
    pub open spec fn resumed(
        &self,
        running: RunningModel,
        outcome: ProcessOutcome,
        no_install: bool,
        value_of: spec_fn(Seq<char>) -> Option<Seq<char>>,
        build_dir: Seq<char>,
    ) -> BuildStepModel<CommandFault> {
        match outcome_fault(running.command, outcome) {
            Some(fault) => BuildStepModel::Failed(fault),
            None => match running.phase {
                BuildPhase::Build => self.after_build(no_install, value_of, build_dir),
                BuildPhase::Install => BuildStepModel::Succeeded(Seq::empty()),
            },
        }
    }

    fn open_phase(
        phase: BuildPhase,
        template: &Option<String>,
        output_paths: &RockLayout,
        lua: &LuaInstallation,
        external_dependencies: &ExternalDependencies,
        config: &Config,
        build_dir: &str,
    ) -> (step: Option<BuildStep<CommandError>>)
        ensures
            template is None <==> step is None,
            step matches Some(step) ==> step@ == phase_step(
                phase,
                template.deep_view(),
                build_values(*output_paths, *lua, *external_dependencies, *config),
                build_dir@,
                BuildStepModel::Succeeded(Seq::empty()),
            ),
            template matches Some(text) && text@.len() == 0 ==> step matches Some(
                BuildStep::Done(Err(CommandError::EmptyCommand)),
            ),
    {
        match template {
            None => None,
            Some(text) => Some(
                match prepare_command(
                    text.as_str(),
                    output_paths,
                    lua,
                    external_dependencies,
                    config,
                    build_dir,
                ) {
                    Err(error) => BuildStep::Done(Err(error)),
                    Ok(ready) => BuildStep::Run(
                        Running { phase, command: ready.command, invocation: ready.invocation },
                    ),
                },
            ),
        }
    }

    fn finish_build(
        &self,
        output_paths: &RockLayout,
        no_install: bool,
        lua: &LuaInstallation,
        external_dependencies: &ExternalDependencies,
        config: &Config,
        build_dir: &str,
    ) -> (step: BuildStep<CommandError>)
        ensures
            step@ == self.after_build(
                no_install,
                build_values(*output_paths, *lua, *external_dependencies, *config),
                build_dir@,
            ),
            no_install ==> step matches BuildStep::Done(Ok(_)),
    {
        if no_install {
            return BuildStep::Done(Ok(BuildInfo::default()));
        }
        match Self::open_phase(
            BuildPhase::Install,
            &self.install_command,
            output_paths,
            lua,
            external_dependencies,
            config,
            build_dir,
        ) {
            Some(step) => step,
            None => BuildStep::Done(Ok(BuildInfo::default())),
        }
    }

}

impl Build for CommandBuildSpec {
    type Err = CommandError;

    /// Begins the build: says which program to run first, or how the build
    /// ended without running any.
    ///
    /// A build command without any character ends the build at once with
    /// `EmptyCommand`, whether or not an install was asked for.
    fn start(
        &self,
        output_paths: &RockLayout,
        no_install: bool,
        lua: &LuaInstallation,
        external_dependencies: &ExternalDependencies,
        config: &Config,
        build_dir: &str,
    ) -> (step: BuildStep<CommandError>)
        ensures
            step@ == self.started(
                no_install,
                build_values(*output_paths, *lua, *external_dependencies, *config),
                build_dir@,
            ),
            self.build_command matches Some(text) && text@.len() == 0 ==> step matches BuildStep::Done(
                Err(CommandError::EmptyCommand),
            ),
    {
        match Self::open_phase(
            BuildPhase::Build,
            &self.build_command,
            output_paths,
            lua,
            external_dependencies,
            config,
            build_dir,
        ) {
            Some(step) => step,
            None => self.finish_build(
                output_paths,
                no_install,
                lua,
                external_dependencies,
                config,
                build_dir,
            ),
        }
    }

    /// Goes on after the program of `running` has ended with `outcome`: says
    /// which program to run next, or how the build ended.
    ///
    /// With `no_install` no program is ever asked for here.
    fn resume(
        &self,
        running: Running,
        outcome: ProcessOutcome,
        output_paths: &RockLayout,
        no_install: bool,
        lua: &LuaInstallation,
        external_dependencies: &ExternalDependencies,
        config: &Config,
        build_dir: &str,
    ) -> (step: BuildStep<CommandError>)
        ensures
            step@ == self.resumed(
                running@,
                outcome,
                no_install,
                build_values(*output_paths, *lua, *external_dependencies, *config),
                build_dir@,
            ),
            no_install ==> step is Done,
    {
        match command_result(running.command, outcome) {
            Err(error) => BuildStep::Done(Err(error)),
            Ok(_) => match running.phase {
                BuildPhase::Build => self.finish_build(
                    output_paths,
                    no_install,
                    lua,
                    external_dependencies,
                    config,
                    build_dir,
                ),
                BuildPhase::Install => BuildStep::Done(Ok(BuildInfo::default())),
            },
        }
    }
}

/// A build command that yields no word after substitution fails the build
/// before any program is run, whether or not an install was asked for, and
/// whatever the install command is.
pub proof fn law_empty_build_command_fails(
    spec: CommandBuildSpec,
    no_install: bool,
    value_of: spec_fn(Seq<char>) -> Option<Seq<char>>,
    build_dir: Seq<char>,
)
    requires
        spec.build_command matches Some(template) && substituted(template@, value_of) matches Ok(
            command,
        ) && shell_split(command) == Some(Seq::<Seq<char>>::empty()),
    ensures
        spec.started(no_install, value_of, build_dir) == BuildStepModel::<CommandFault>::Failed(
            CommandFault::EmptyCommand,
        ),
{
}

/// A build that failed in its build phase is over: the install phase does
/// not open.
pub proof fn law_failed_build_never_installs(
    spec: CommandBuildSpec,
    running: RunningModel,
    outcome: ProcessOutcome,
    no_install: bool,
    value_of: spec_fn(Seq<char>) -> Option<Seq<char>>,
    build_dir: Seq<char>,
)
    requires
        running.phase == BuildPhase::Build,
        outcome_fault(running.command, outcome) is Some,
    ensures
        spec.resumed(running, outcome, no_install, value_of, build_dir) is Failed,
{
}

/// Where the caller wants no install, the only program that the build ever
/// asks for is that of the build command.
pub proof fn law_no_install_runs_build_only(
    spec: CommandBuildSpec,
    running: RunningModel,
    outcome: ProcessOutcome,
    value_of: spec_fn(Seq<char>) -> Option<Seq<char>>,
    build_dir: Seq<char>,
)
    ensures
        spec.started(true, value_of, build_dir) matches BuildStepModel::Run(first)
            ==> first.phase == BuildPhase::Build && spec.build_command is Some && prepared(
            spec.build_command->0@,
            value_of,
            build_dir,
        ) == Ok::<PreparedModel, CommandFault>(
            PreparedModel { command: first.command, invocation: first.invocation },
        ),
        !(spec.resumed(running, outcome, true, value_of, build_dir) is Run),
{
}

/// The install phase follows the build phase and never comes before it: a
/// build that declares a build command runs it first.
pub proof fn law_build_precedes_install(
    spec: CommandBuildSpec,
    no_install: bool,
    value_of: spec_fn(Seq<char>) -> Option<Seq<char>>,
    build_dir: Seq<char>,
)
    requires
        spec.build_command is Some,
    ensures
        spec.started(no_install, value_of, build_dir) matches BuildStepModel::Run(first)
            ==> first.phase == BuildPhase::Build,
{
}

} // verus!
