use lux_lib::command::{
    command_result, invocation_of, parse_command, prepare_command, Build, BuildInfo, BuildPhase,
    BuildStep, CommandBuildSpec, CommandError, ExitStatus, Invocation, ProcessOutcome, Running,
};
use lux_lib::lua_rockspec::LuaRockspec;
use lux_lib::rockspec::BuildSpec;
use lux_lib::variables::{
    Config, ExternalDependencies, LuaInstallation, RockLayout, Variable, VariableSubstitutionError,
};

fn layout() -> RockLayout {
    RockLayout {
        rock_path: "/tree/foo".to_string(),
        lib: "/tree/foo/lib".to_string(),
        src: "/tree/foo/src".to_string(),
        bin: "/tree/foo/bin".to_string(),
        conf: "/tree/foo/etc".to_string(),
        doc: "/tree/foo/doc".to_string(),
    }
}

fn lua() -> LuaInstallation {
    LuaInstallation {
        lua: "/usr/bin/lua".to_string(),
        include_dir: "/usr/include/lua5.4".to_string(),
        lib_dir: "/usr/lib".to_string(),
    }
}

fn config() -> Config {
    Config { variables: vec![Variable { name: "EMPTY".to_string(), value: String::new() }] }
}

fn start(spec: &CommandBuildSpec, no_install: bool) -> BuildStep<CommandError> {
    spec.start(&layout(), no_install, &lua(), &ExternalDependencies::new(), &config(), "/build")
}

fn resume(
    spec: &CommandBuildSpec,
    running: Running,
    outcome: ProcessOutcome,
    no_install: bool,
) -> BuildStep<CommandError> {
    spec.resume(
        running,
        outcome,
        &layout(),
        no_install,
        &lua(),
        &ExternalDependencies::new(),
        &config(),
        "/build",
    )
}

fn exited(code: i32) -> ProcessOutcome {
    ProcessOutcome::Exited {
        status: ExitStatus { code: Some(code) },
        stdout: Vec::new(),
        stderr: Vec::new(),
    }
}

fn words(all: &[&str]) -> Vec<String> {
    all.iter().map(|word| word.to_string()).collect()
}

#[test]
fn tokenization_splits_plain_words() {
    let invocation = parse_command("echo hello world", "/build").unwrap();
    assert_eq!(invocation.program, "echo");
    assert_eq!(invocation.args, words(&["hello", "world"]));
    assert_eq!(invocation.current_dir, "/build");
}

#[test]
fn tokenization_keeps_quoted_words_together() {
    let invocation = parse_command("echo \"a b\"", "/build").unwrap();
    assert_eq!(invocation.program, "echo");
    assert_eq!(invocation.args, words(&["a b"]));

    let invocation = parse_command("sh -c 'make  all' it\\'s", "/build").unwrap();
    assert_eq!(invocation.program, "sh");
    assert_eq!(invocation.args, words(&["-c", "make  all", "it's"]));
}

#[test]
fn a_command_without_words_is_empty() {
    assert_eq!(parse_command("", "/build"), Err(CommandError::EmptyCommand));
    assert_eq!(parse_command("   \t ", "/build"), Err(CommandError::EmptyCommand));
    assert_eq!(parse_command("# only a comment", "/build"), Err(CommandError::EmptyCommand));
}

#[test]
fn an_open_quote_is_a_parse_error() {
    assert_eq!(
        parse_command("echo \"unfinished", "/build"),
        Err(CommandError::ParseError {
            err: "missing closing quote".to_string(),
            command: "echo \"unfinished".to_string(),
        })
    );
}

#[test]
fn invocation_of_takes_the_first_word_as_program() {
    let invocation =
        invocation_of("make -j 4".to_string(), Ok(words(&["make", "-j", "4"])), "/src").unwrap();
    assert_eq!(
        invocation,
        Invocation {
            program: "make".to_string(),
            args: words(&["-j", "4"]),
            current_dir: "/src".to_string(),
        }
    );
    assert_eq!(
        invocation_of(String::new(), Ok(Vec::new()), "/src"),
        Err(CommandError::EmptyCommand)
    );
    assert_eq!(
        invocation_of("'".to_string(), Err(shell_words::ParseError), "/src"),
        Err(CommandError::ParseError {
            err: "missing closing quote".to_string(),
            command: "'".to_string(),
        })
    );
}

#[test]
fn prepare_substitutes_before_it_splits() {
    let ready = prepare_command(
        "$(LUA) build.lua '$(PREFIX)'",
        &layout(),
        &lua(),
        &ExternalDependencies::new(),
        &config(),
        "/build",
    )
    .unwrap();
    assert_eq!(ready.command, "/usr/bin/lua build.lua '/tree/foo'");
    assert_eq!(ready.invocation.program, "/usr/bin/lua");
    assert_eq!(ready.invocation.args, words(&["build.lua", "/tree/foo"]));
    assert_eq!(ready.invocation.current_dir, "/build");
}

#[test]
fn prepare_reports_each_failure() {
    let externals = ExternalDependencies::new();
    assert_eq!(
        prepare_command("$(NOPE)", &layout(), &lua(), &externals, &config(), "/build"),
        Err(CommandError::VariableSubstitutionError(VariableSubstitutionError::Unresolved {
            name: "NOPE".to_string()
        }))
    );
    assert_eq!(
        prepare_command("$(EMPTY)", &layout(), &lua(), &externals, &config(), "/build"),
        Err(CommandError::EmptyCommand)
    );
    assert_eq!(
        prepare_command("'$(LUA)", &layout(), &lua(), &externals, &config(), "/build"),
        Err(CommandError::ParseError {
            err: "missing closing quote".to_string(),
            command: "'/usr/bin/lua".to_string(),
        })
    );
}

#[test]
fn exit_status_zero_is_success() {
    assert!(ExitStatus { code: Some(0) }.success());
    assert!(!ExitStatus { code: Some(1) }.success());
    assert!(!ExitStatus { code: Some(-1) }.success());
    assert!(!ExitStatus { code: None }.success());
    assert_eq!(command_result("true".to_string(), exited(0)), Ok(()));
}

#[test]
fn a_failing_command_carries_its_output() {
    let stdout: Vec<u8> = (0..4096).map(|i| b'a' + (i % 26) as u8).collect();
    let stderr: Vec<u8> = "warning: \u{e9}t\u{e9}\nerror: no such file\n".repeat(100).into_bytes();
    let outcome = ProcessOutcome::Exited {
        status: ExitStatus { code: Some(1) },
        stdout: stdout.clone(),
        stderr: stderr.clone(),
    };
    match command_result("make all".to_string(), outcome) {
        Err(CommandError::CommandFailure { command, status, stdout: out, stderr: err }) => {
            assert_eq!(command, "make all");
            assert_eq!(status, ExitStatus { code: Some(1) });
            assert_eq!(out.len(), 4096);
            assert_eq!(out.as_bytes(), stdout.as_slice());
            assert_eq!(err.as_bytes(), stderr.as_slice());
        }
        other => panic!("unexpected result: {:?}", other),
    }
}

#[test]
fn output_that_is_not_text_is_read_leniently() {
    let outcome = ProcessOutcome::Exited {
        status: ExitStatus { code: None },
        stdout: vec![b'o', b'k', 0xff, b'!'],
        stderr: Vec::new(),
    };
    assert_eq!(
        command_result("x".to_string(), outcome),
        Err(CommandError::CommandFailure {
            command: "x".to_string(),
            status: ExitStatus { code: None },
            stdout: "ok\u{fffd}!".to_string(),
            stderr: String::new(),
        })
    );
}

#[test]
fn a_program_that_cannot_start_is_an_io_error() {
    let outcome = ProcessOutcome::Failed { err: "No such file or directory".to_string() };
    assert_eq!(
        command_result("nonesuch --help".to_string(), outcome),
        Err(CommandError::Io {
            err: "No such file or directory".to_string(),
            command: "nonesuch --help".to_string(),
        })
    );
}

#[test]
fn an_empty_build_command_fails_before_anything_runs() {
    let spec = CommandBuildSpec {
        build_command: Some(String::new()),
        install_command: Some("make install".to_string()),
    };
    assert_eq!(start(&spec, false), BuildStep::Done(Err(CommandError::EmptyCommand)));
    assert_eq!(start(&spec, true), BuildStep::Done(Err(CommandError::EmptyCommand)));

    let spec = CommandBuildSpec { build_command: Some("$(EMPTY)".to_string()), install_command: None };
    assert_eq!(start(&spec, false), BuildStep::Done(Err(CommandError::EmptyCommand)));
}

#[test]
fn build_runs_before_install() {
    let spec = CommandBuildSpec {
        build_command: Some("make -C $(PREFIX)".to_string()),
        install_command: Some("make install".to_string()),
    };
    let first = match start(&spec, false) {
        BuildStep::Run(running) => running,
        other => panic!("unexpected step: {:?}", other),
    };
    assert_eq!(first.phase, BuildPhase::Build);
    assert_eq!(first.command, "make -C /tree/foo");
    assert_eq!(first.invocation.program, "make");
    assert_eq!(first.invocation.args, words(&["-C", "/tree/foo"]));

    let second = match resume(&spec, first, exited(0), false) {
        BuildStep::Run(running) => running,
        other => panic!("unexpected step: {:?}", other),
    };
    assert_eq!(second.phase, BuildPhase::Install);
    assert_eq!(second.command, "make install");
    assert_eq!(second.invocation.args, words(&["install"]));

    assert_eq!(
        resume(&spec, second, exited(0), false),
        BuildStep::Done(Ok(BuildInfo { binaries: Vec::new() }))
    );
}

#[test]
fn no_install_never_runs_the_install_command() {
    let spec = CommandBuildSpec {
        build_command: Some("make".to_string()),
        install_command: Some("make install".to_string()),
    };
    let first = match start(&spec, true) {
        BuildStep::Run(running) => running,
        other => panic!("unexpected step: {:?}", other),
    };
    assert_eq!(first.phase, BuildPhase::Build);
    assert_eq!(first.command, "make");
    assert_eq!(resume(&spec, first, exited(0), true), BuildStep::Done(Ok(BuildInfo::default())));
}

#[test]
fn no_install_does_not_even_prepare_the_install_command() {
    let spec = CommandBuildSpec {
        build_command: Some("make".to_string()),
        install_command: Some("$(NOT_DEFINED) '".to_string()),
    };
    let first = match start(&spec, true) {
        BuildStep::Run(running) => running,
        other => panic!("unexpected step: {:?}", other),
    };
    assert_eq!(resume(&spec, first, exited(0), true), BuildStep::Done(Ok(BuildInfo::default())));
}

#[test]
fn a_failed_build_ends_the_run() {
    let spec = CommandBuildSpec {
        build_command: Some("make".to_string()),
        install_command: Some("make install".to_string()),
    };
    let first = match start(&spec, false) {
        BuildStep::Run(running) => running,
        other => panic!("unexpected step: {:?}", other),
    };
    let outcome = ProcessOutcome::Exited {
        status: ExitStatus { code: Some(2) },
        stdout: b"cc -c a.c\n".to_vec(),
        stderr: b"a.c:1: error\n".to_vec(),
    };
    assert_eq!(
        resume(&spec, first, outcome, false),
        BuildStep::Done(Err(CommandError::CommandFailure {
            command: "make".to_string(),
            status: ExitStatus { code: Some(2) },
            stdout: "cc -c a.c\n".to_string(),
            stderr: "a.c:1: error\n".to_string(),
        }))
    );
}

#[test]
fn an_empty_install_command_fails_after_the_build() {
    let spec = CommandBuildSpec {
        build_command: Some("make".to_string()),
        install_command: Some(String::new()),
    };
    let first = match start(&spec, false) {
        BuildStep::Run(running) => running,
        other => panic!("unexpected step: {:?}", other),
    };
    assert_eq!(
        resume(&spec, first, exited(0), false),
        BuildStep::Done(Err(CommandError::EmptyCommand))
    );
}

#[test]
fn phases_without_a_command_are_passed_over() {
    let nothing = CommandBuildSpec { build_command: None, install_command: None };
    assert_eq!(start(&nothing, false), BuildStep::Done(Ok(BuildInfo::default())));

    let install_only =
        CommandBuildSpec { build_command: None, install_command: Some("cp a b".to_string()) };
    match start(&install_only, false) {
        BuildStep::Run(running) => assert_eq!(running.phase, BuildPhase::Install),
        other => panic!("unexpected step: {:?}", other),
    }
    assert_eq!(start(&install_only, true), BuildStep::Done(Ok(BuildInfo::default())));
}

#[test]
fn a_document_with_an_empty_build_command_never_builds() {
    let rockspec = LuaRockspec::new("package = 'p'\nbuild = { build_command = \"\" }").unwrap();
    let spec = match rockspec.build {
        BuildSpec::Command(spec) => spec,
        other => panic!("unexpected build: {:?}", other),
    };
    assert_eq!(start(&spec, false), BuildStep::Done(Err(CommandError::EmptyCommand)));
    assert_eq!(start(&spec, true), BuildStep::Done(Err(CommandError::EmptyCommand)));
}
