use aucpl::config::{get_settings, LangSolution, LanguageTable, Problem, Settings};
use aucpl::error::{Error, ErrorKind};
use aucpl::run::RunnableCategory;

fn text(s: &str) -> String {
    s.to_string()
}

fn tokens(words: &[&str]) -> Vec<String> {
    words.iter().map(|w| w.to_string()).collect()
}

fn settings(version: &str) -> Settings {
    Settings {
        version: text(version),
        problems_dir: text("problems"),
        problem: Problem {
            default_lang: text("cpp"),
            default_generator_lang: text("py"),
            solution: LanguageTable::new(),
        },
    }
}

#[test]
fn default_settings_are_of_the_current_version() {
    let settings = Settings::default();
    assert_eq!(settings.version, "0.2");
    assert_eq!(settings.problems_dir, "problems");
    assert_eq!(settings.problem.default_lang, "cpp");
    assert_eq!(settings.problem.default_generator_lang, "py");
    assert!(settings.problem.solution.get(&text("cpp")).is_none());
    assert!(get_settings(Ok(settings)).is_ok());
}

#[test]
fn settings_of_the_current_version_are_accepted_as_they_are() {
    let mut loaded = settings("0.2");
    loaded.problems_dir = text("elsewhere");
    loaded.problem.solution.insert(
        text("py"),
        LangSolution { compile_command: None, run_command: Some(tokens(&["python3"])) },
    );
    let checked = get_settings(Ok(loaded)).unwrap();
    assert_eq!(checked.version, "0.2");
    assert_eq!(checked.problems_dir, "elsewhere");
    assert_eq!(
        checked.problem.solution.get(&text("py")),
        Some(&LangSolution { compile_command: None, run_command: Some(tokens(&["python3"])) })
    );
}

#[test]
fn settings_of_another_version_are_refused() {
    for version in ["0.1", "0.20", "", "0.2 ", "1.0"] {
        let err = get_settings(Ok(settings(version))).unwrap_err();
        assert_eq!(err, Error::SettingsVersion { found: text(version) });
        assert_eq!(err.kind(), ErrorKind::Configuration);
    }
    assert_eq!(
        get_settings(Ok(settings("0.1"))).unwrap_err().message(),
        "The settings file version does not match! Expected '0.2', got '0.1'"
    );
}

#[test]
fn settings_that_could_not_be_loaded_are_refused() {
    let err = get_settings(Err(text("missing field `problem`"))).unwrap_err();
    assert_eq!(err, Error::SettingsUnreadable { detail: text("missing field `problem`") });
    assert_eq!(err.kind(), ErrorKind::Configuration);
    assert_eq!(err.message(), "Failed to parse settings file: missing field `problem`");
}

#[test]
fn table_finds_what_was_inserted() {
    let mut table = LanguageTable::new();
    assert!(table.get(&text("py")).is_none());
    let python = LangSolution { compile_command: None, run_command: Some(tokens(&["python3", "@script_file"])) };
    let cpp = LangSolution {
        compile_command: Some(tokens(&["g++", "@in_file", "-o", "@bin_file"])),
        run_command: Some(tokens(&["@bin_file"])),
    };
    table.insert(text("py"), python.clone());
    table.insert(text("cpp"), cpp.clone());
    assert_eq!(table.get(&text("py")), Some(&python));
    assert_eq!(table.get(&text("cpp")), Some(&cpp));
    assert!(table.get(&text("rs")).is_none());
    assert!(table.get(&text("")).is_none());
    assert!(table.get(&text("PY")).is_none());
}

#[test]
fn table_replaces_the_profile_of_a_language() {
    let mut table = LanguageTable::new();
    let old = LangSolution { compile_command: None, run_command: Some(tokens(&["python2"])) };
    let new = LangSolution { compile_command: None, run_command: Some(tokens(&["python3"])) };
    let other = LangSolution { compile_command: None, run_command: None };
    table.insert(text("py"), old);
    table.insert(text("sh"), other.clone());
    table.insert(text("py"), new.clone());
    assert_eq!(table.get(&text("py")), Some(&new));
    assert_eq!(table.get(&text("sh")), Some(&other));
}

#[test]
fn every_failure_belongs_to_a_family_and_says_what_it_concerns() {
    let lang = || text("cpp");
    let cases: Vec<(Error, ErrorKind, &str)> = vec![
        (
            Error::SettingsUnreadable { detail: text("bad") },
            ErrorKind::Configuration,
            "Failed to parse settings file: bad",
        ),
        (
            Error::SettingsVersion { found: text("9") },
            ErrorKind::Configuration,
            "The settings file version does not match! Expected '0.2', got '9'",
        ),
        (
            Error::MissingLanguage { lang: lang() },
            ErrorKind::Configuration,
            "Could not get settings for language `cpp`",
        ),
        (
            Error::EmptyCompileCommand { lang: lang() },
            ErrorKind::Configuration,
            "compile_command specified in the settings, but array is empty, for language `cpp`",
        ),
        (
            Error::EmptyRunCommand { lang: lang() },
            ErrorKind::Configuration,
            "No run command specified in the settings. It must be specified! Language `cpp`",
        ),
        (
            Error::LanguageMismatch { file_lang: text("py"), lang: lang() },
            ErrorKind::Resolution,
            "Language from file extension (py) does not match provided language (cpp)",
        ),
        (
            Error::MissingExtension { name: text("sol") },
            ErrorKind::Resolution,
            "Failed to get file extension of sol",
        ),
        (
            Error::SourceMissing { category: RunnableCategory::Generator, path: text("generators/g.py") },
            ErrorKind::Io,
            "generator file does not exist: generators/g.py",
        ),
        (
            Error::NotAnInput { name: text("a.txt") },
            ErrorKind::Io,
            "Failed to strip suffix of test file a.txt",
        ),
        (
            Error::TestExists { path: text("tests/a.in") },
            ErrorKind::Io,
            "Test file already exists: tests/a.in, use `--test-name` to specify another name",
        ),
        (
            Error::CompileNotStarted { lang: lang() },
            ErrorKind::Process,
            "Failed to start the compile command of language `cpp`",
        ),
        (
            Error::CompileFailed { lang: lang() },
            ErrorKind::Process,
            "The compile command of language `cpp` failed",
        ),
        (
            Error::TooFewSolutions { given: 1 },
            ErrorKind::Validation,
            "At least two solutions are required.",
        ),
    ];
    for (error, kind, message) in cases {
        assert_eq!(error.kind(), kind);
        assert_eq!(error.message(), message);
    }
}

#[test]
fn profile_needs_a_run_command_and_no_empty_compile_command() {
    let profile = |compile: Option<&[&str]>, run: Option<&[&str]>| LangSolution {
        compile_command: compile.map(tokens),
        run_command: run.map(tokens),
    };
    assert!(profile(None, Some(&["python3"])).is_valid());
    assert!(profile(Some(&["g++"]), Some(&["@bin_file"])).is_valid());
    assert!(!profile(None, None).is_valid());
    assert!(!profile(None, Some(&[])).is_valid());
    assert!(!profile(Some(&[]), Some(&["@bin_file"])).is_valid());
    assert!(!profile(Some(&["g++"]), None).is_valid());
    assert!(!profile(Some(&["g++"]), Some(&[])).is_valid());
    assert!(!profile(Some(&[]), None).is_valid());
}
