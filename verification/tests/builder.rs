use aucpl::config::{LangSolution, LanguageTable, Problem, Settings};
use aucpl::error::{Error, ErrorKind};
use aucpl::run::{BuildStep, CompileOutcome, RunCommand, RunnableCategory, RunnableFile};

fn text(s: &str) -> String {
    s.to_string()
}

fn tokens(words: &[&str]) -> Vec<String> {
    words.iter().map(|w| w.to_string()).collect()
}

fn settings_with(lang: &str, compile: Option<&[&str]>, run: Option<&[&str]>) -> Settings {
    let mut solution = LanguageTable::new();
    solution.insert(
        text(lang),
        LangSolution { compile_command: compile.map(tokens), run_command: run.map(tokens) },
    );
    Settings {
        version: text("0.2"),
        problems_dir: text("problems"),
        problem: Problem {
            default_lang: text("cpp"),
            default_generator_lang: text("py"),
            solution,
        },
    }
}

fn solution(settings: &Settings, name: &str) -> RunnableFile {
    let name = text(name);
    RunnableFile::new(settings, RunnableCategory::Solution, Some(&name), None).unwrap()
}

fn build(settings: &Settings, file: &RunnableFile, source: Option<&str>) -> Result<BuildStep, Error> {
    let source = source.map(text);
    RunCommand::new(
        settings,
        file,
        source.as_ref(),
        text("/p/solutions/solution.out"),
        text("/p/solutions/sol"),
    )
}

#[test]
fn missing_source_is_reported_with_category_and_path() {
    let settings = settings_with("py", None, Some(&["python3", "@script_file"]));
    let file = solution(&settings, "sol.py");
    let err = build(&settings, &file, None).unwrap_err();
    assert_eq!(
        err,
        Error::SourceMissing { category: RunnableCategory::Solution, path: text("solutions/sol.py") }
    );
    assert_eq!(err.kind(), ErrorKind::Io);
    assert_eq!(err.message(), "solution file does not exist: solutions/sol.py");
}

#[test]
fn missing_source_comes_before_a_missing_profile() {
    let settings = settings_with("py", None, Some(&["python3", "@script_file"]));
    let file = solution(&settings, "sol.zig");
    let err = build(&settings, &file, None).unwrap_err();
    assert!(matches!(err, Error::SourceMissing { .. }));
}

#[test]
fn unknown_language_is_a_configuration_error() {
    let settings = settings_with("py", None, Some(&["python3", "@script_file"]));
    let file = solution(&settings, "sol.zig");
    let err = build(&settings, &file, Some("/p/solutions/sol.zig")).unwrap_err();
    assert_eq!(err, Error::MissingLanguage { lang: text("zig") });
    assert_eq!(err.kind(), ErrorKind::Configuration);
    assert_eq!(err.message(), "Could not get settings for language `zig`");
}

#[test]
fn declared_but_empty_compile_command_is_rejected() {
    let settings = settings_with("cpp", Some(&[]), Some(&["@bin_file"]));
    let file = solution(&settings, "sol.cpp");
    let err = build(&settings, &file, Some("/p/solutions/sol.cpp")).unwrap_err();
    assert_eq!(err, Error::EmptyCompileCommand { lang: text("cpp") });
    assert_eq!(err.kind(), ErrorKind::Configuration);
}

#[test]
fn script_without_run_command_is_rejected() {
    let settings = settings_with("py", None, None);
    let file = solution(&settings, "sol.py");
    let err = build(&settings, &file, Some("/p/solutions/sol.py")).unwrap_err();
    assert_eq!(err, Error::EmptyRunCommand { lang: text("py") });
    assert_eq!(err.kind(), ErrorKind::Configuration);

    let settings = settings_with("py", None, Some(&[]));
    let err = build(&settings, &file, Some("/p/solutions/sol.py")).unwrap_err();
    assert_eq!(err, Error::EmptyRunCommand { lang: text("py") });
}

#[test]
fn script_language_is_ready_without_compiling() {
    let settings = settings_with("py", None, Some(&["python3", "@script_file"]));
    let file = solution(&settings, "sol.py");
    match build(&settings, &file, Some("/p/solutions/sol.py")).unwrap() {
        BuildStep::Ready(command) => {
            assert_eq!(command.bin_file(), "/p/solutions/solution.out");
            assert_eq!(command.script_file(), "/p/solutions/sol");
            assert_eq!(command.run_command(), &tokens(&["python3", "@script_file"]));
        }
        BuildStep::Compile { .. } => panic!("a language without a compile command was compiled"),
    }
}

#[test]
fn no_compile_command_never_compiles_whatever_the_run_command_holds() {
    let runs: [&[&str]; 5] = [
        &["@bin_file"],
        &["@in_file", "@bin_file", "@script_file"],
        &["g++", "-o", "@bin_file", "@in_file"],
        &[""],
        &["sh", "-c", "gcc @in_file"],
    ];
    for run in runs {
        let settings = settings_with("py", None, Some(run));
        let file = solution(&settings, "sol.py");
        let step = build(&settings, &file, Some("/p/solutions/sol.py")).unwrap();
        assert!(matches!(step, BuildStep::Ready(_)));
    }
}

#[test]
fn compile_command_substitutes_source_and_artifact() {
    let settings = settings_with(
        "cpp",
        Some(&["g++", "-O2", "@in_file", "-o", "@bin_file", "@script_file"]),
        Some(&["@bin_file"]),
    );
    let file = solution(&settings, "sol.cpp");
    match build(&settings, &file, Some("/abs/p/solutions/sol.cpp")).unwrap() {
        BuildStep::Compile { argv, pending } => {
            assert_eq!(
                argv,
                tokens(&[
                    "g++",
                    "-O2",
                    "/abs/p/solutions/sol.cpp",
                    "-o",
                    "/p/solutions/solution.out",
                    "@script_file",
                ])
            );
            assert_eq!(pending.lang(), "cpp");
        }
        BuildStep::Ready(_) => panic!("a compiled language was not compiled"),
    }
}

#[test]
fn compile_command_substitutes_its_program_too() {
    let settings = settings_with("cpp", Some(&["@bin_file", "@in_file"]), Some(&["@bin_file"]));
    let file = solution(&settings, "sol.cpp");
    match build(&settings, &file, Some("/src")).unwrap() {
        BuildStep::Compile { argv, .. } => {
            assert_eq!(argv, tokens(&["/p/solutions/solution.out", "/src"]))
        }
        BuildStep::Ready(_) => panic!("a compiled language was not compiled"),
    }
}

#[test]
fn compile_command_only_replaces_whole_tokens() {
    let settings = settings_with(
        "cpp",
        Some(&["cc", "-o@bin_file", "@in_file.c", "@IN_FILE", " @in_file"]),
        Some(&["@bin_file"]),
    );
    let file = solution(&settings, "sol.cpp");
    match build(&settings, &file, Some("/src")).unwrap() {
        BuildStep::Compile { argv, .. } => {
            assert_eq!(argv, tokens(&["cc", "-o@bin_file", "@in_file.c", "@IN_FILE", " @in_file"]))
        }
        BuildStep::Ready(_) => panic!("a compiled language was not compiled"),
    }
}

fn pending(run: Option<&[&str]>) -> aucpl::run::PendingCommand {
    let settings = settings_with("cpp", Some(&["g++", "@in_file"]), run);
    let file = solution(&settings, "sol.cpp");
    match build(&settings, &file, Some("/src")).unwrap() {
        BuildStep::Compile { pending, .. } => pending,
        BuildStep::Ready(_) => panic!("a compiled language was not compiled"),
    }
}

#[test]
fn successful_compile_yields_the_command() {
    let command = pending(Some(&["@bin_file", "--fast"])).finish(CompileOutcome::Exited { code: 0 }).unwrap();
    assert_eq!(command.bin_file(), "/p/solutions/solution.out");
    assert_eq!(command.script_file(), "/p/solutions/sol");
    assert_eq!(command.run_command(), &tokens(&["@bin_file", "--fast"]));
}

#[test]
fn failed_compile_is_a_process_error() {
    let err = pending(Some(&["@bin_file"])).finish(CompileOutcome::Exited { code: 1 }).unwrap_err();
    assert_eq!(err, Error::CompileFailed { lang: text("cpp") });
    assert_eq!(err.kind(), ErrorKind::Process);
    let err = pending(Some(&["@bin_file"])).finish(CompileOutcome::Exited { code: 255 }).unwrap_err();
    assert_eq!(err, Error::CompileFailed { lang: text("cpp") });
    let err = pending(Some(&["@bin_file"])).finish(CompileOutcome::Killed).unwrap_err();
    assert_eq!(err, Error::CompileFailed { lang: text("cpp") });
}

#[test]
fn compiler_that_did_not_start_is_a_process_error() {
    let err = pending(Some(&["@bin_file"])).finish(CompileOutcome::NotStarted).unwrap_err();
    assert_eq!(err, Error::CompileNotStarted { lang: text("cpp") });
    assert_eq!(err.kind(), ErrorKind::Process);
}

#[test]
fn run_command_is_checked_after_a_successful_compile() {
    let err = pending(None).finish(CompileOutcome::Exited { code: 0 }).unwrap_err();
    assert_eq!(err, Error::EmptyRunCommand { lang: text("cpp") });
    let err = pending(Some(&[])).finish(CompileOutcome::Exited { code: 0 }).unwrap_err();
    assert_eq!(err, Error::EmptyRunCommand { lang: text("cpp") });
    let err = pending(None).finish(CompileOutcome::Exited { code: 2 }).unwrap_err();
    assert_eq!(err, Error::CompileFailed { lang: text("cpp") });
}

fn ready(run: &[&str]) -> RunCommand {
    let settings = settings_with("py", None, Some(run));
    let file = solution(&settings, "sol.py");
    match build(&settings, &file, Some("/src")).unwrap() {
        BuildStep::Ready(command) => command,
        BuildStep::Compile { .. } => panic!("a language without a compile command was compiled"),
    }
}

#[test]
fn invocation_substitutes_every_token_in_order() {
    let command = ready(&["python3", "@script_file", "--bin", "@bin_file", "@in_file", "@script_file"]);
    let invocation = command.invocation(None);
    assert_eq!(
        invocation.argv,
        tokens(&[
            "python3",
            "/p/solutions/sol",
            "--bin",
            "/p/solutions/solution.out",
            "@in_file",
            "/p/solutions/sol",
        ])
    );
    assert_eq!(invocation.stdin, None);
}

#[test]
fn invocation_substitutes_the_program_too() {
    let command = ready(&["@bin_file"]);
    assert_eq!(command.invocation(None).argv, tokens(&["/p/solutions/solution.out"]));
    let command = ready(&["@script_file", "x"]);
    assert_eq!(command.invocation(None).argv, tokens(&["/p/solutions/sol", "x"]));
}

#[test]
fn invocation_only_replaces_whole_tokens() {
    let command = ready(&["run", "--file=@script_file", "@bin_file ", "@BIN_FILE"]);
    assert_eq!(
        command.invocation(None).argv,
        tokens(&["run", "--file=@script_file", "@bin_file ", "@BIN_FILE"])
    );
}

#[test]
fn invocation_connects_the_input_to_stdin() {
    let command = ready(&["python3", "@script_file"]);
    let input = text("/p/tests/case1.in");
    let invocation = command.invocation(Some(&input));
    assert_eq!(invocation.stdin, Some(text("/p/tests/case1.in")));
    assert_eq!(invocation.argv, tokens(&["python3", "/p/solutions/sol"]));
}

#[test]
fn same_command_gives_the_same_invocation_every_time() {
    let command = ready(&["python3", "@script_file"]);
    let input = text("/p/tests/case1.in");
    assert_eq!(command.invocation(Some(&input)), command.invocation(Some(&input)));
}

#[test]
fn cleanup_removes_the_artifact_only_if_it_exists() {
    let command = ready(&["python3", "@script_file"]);
    assert_eq!(command.cleanup(true), Some(text("/p/solutions/solution.out")));
    assert_eq!(command.cleanup(false), None);
}
