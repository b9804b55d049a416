//! Everything that can go wrong short of a divergence, which is a result.

use vstd::prelude::*;
use vstd::string::*;
use crate::run::RunnableCategory;

verus! {

/// The five families of failure.
#[derive(Clone, Copy, Debug, PartialEq, Eq, Structural)]
pub enum ErrorKind {
    /// The language configuration is unusable.
    Configuration,
    /// A file name and a language could not be reconciled.
    Resolution,
    /// A file that must exist does not, or a path cannot be formed.
    Io,
    /// The compile command did not run to a successful end.
    Process,
    /// The request itself is malformed.
    Validation,
}

/// A failure of the engine, with what it concerns.
#[derive(Clone, Debug, PartialEq, Eq)]
pub enum Error {
    /// The settings could not be loaded at all.
    SettingsUnreadable { detail: String },
    /// The settings were written for another version of the format.
    SettingsVersion { found: String },
    /// The settings hold no profile for this language.
    MissingLanguage { lang: String },
    /// A compile command is declared for this language, but it is empty.
    EmptyCompileCommand { lang: String },
    /// No run command is given for this language.
    EmptyRunCommand { lang: String },
    /// The file's extension names another language than the one asked for.
    LanguageMismatch { file_lang: String, lang: String },
    /// The file name has no extension to infer a language from.
    MissingExtension { name: String },
    /// The source file is not where it should be.
    SourceMissing { category: RunnableCategory, path: String },
    /// A test input's name does not end in `.in`.
    NotAnInput { name: String },
    /// The test input to generate exists already.
    TestExists { path: String },
    /// The compile command could not be started.
    CompileNotStarted { lang: String },
    /// The compile command ran and did not report success.
    CompileFailed { lang: String },
    /// Fewer than two solutions were given to compare.
    TooFewSolutions { given: usize },
    /// The difficulty lies beyond the last bucket.
    DifficultyTooHigh { difficulty: u16 },
    /// The problem's name holds something else than letters, digits, dashes
    /// and underscores, or nothing at all.
    InvalidProblemName { name: String },
    /// The pattern for problem names could not be compiled.
    InvalidPattern,
    /// A problem of this name exists already.
    ProblemExists { name: String },
    /// A problem's folder lacks a file or folder that every problem has.
    MissingEntry { entry: String },
    /// A problem has no test files at all.
    NoTests,
}

impl Error {
    /// The family a failure belongs to.
    pub open spec fn spec_kind(&self) -> ErrorKind {
        match self {
            Error::SettingsUnreadable { .. } => ErrorKind::Configuration,
            Error::SettingsVersion { .. } => ErrorKind::Configuration,
            Error::MissingLanguage { .. } => ErrorKind::Configuration,
            Error::EmptyCompileCommand { .. } => ErrorKind::Configuration,
            Error::EmptyRunCommand { .. } => ErrorKind::Configuration,
            Error::LanguageMismatch { .. } => ErrorKind::Resolution,
            Error::MissingExtension { .. } => ErrorKind::Resolution,
            Error::SourceMissing { .. } => ErrorKind::Io,
            Error::NotAnInput { .. } => ErrorKind::Io,
            Error::TestExists { .. } => ErrorKind::Io,
            Error::CompileNotStarted { .. } => ErrorKind::Process,
            Error::CompileFailed { .. } => ErrorKind::Process,
            Error::TooFewSolutions { .. } => ErrorKind::Validation,
            Error::DifficultyTooHigh { .. } => ErrorKind::Validation,
            Error::InvalidProblemName { .. } => ErrorKind::Validation,
            Error::InvalidPattern => ErrorKind::Configuration,
            Error::ProblemExists { .. } => ErrorKind::Io,
            Error::MissingEntry { .. } => ErrorKind::Io,
            Error::NoTests => ErrorKind::Io,
        }
    }

    /// The family a failure belongs to.
    #[verifier::when_used_as_spec(spec_kind)]
    pub fn kind(&self) -> (kind: ErrorKind)
        ensures
            kind == self.spec_kind(),
    {
        match self {
            Error::SettingsUnreadable { .. } => ErrorKind::Configuration,
            Error::SettingsVersion { .. } => ErrorKind::Configuration,
            Error::MissingLanguage { .. } => ErrorKind::Configuration,
            Error::EmptyCompileCommand { .. } => ErrorKind::Configuration,
            Error::EmptyRunCommand { .. } => ErrorKind::Configuration,
            Error::LanguageMismatch { .. } => ErrorKind::Resolution,
            Error::MissingExtension { .. } => ErrorKind::Resolution,
            Error::SourceMissing { .. } => ErrorKind::Io,
            Error::NotAnInput { .. } => ErrorKind::Io,
            Error::TestExists { .. } => ErrorKind::Io,
            Error::CompileNotStarted { .. } => ErrorKind::Process,
            Error::CompileFailed { .. } => ErrorKind::Process,
            Error::TooFewSolutions { .. } => ErrorKind::Validation,
            Error::DifficultyTooHigh { .. } => ErrorKind::Validation,
            Error::InvalidProblemName { .. } => ErrorKind::Validation,
            Error::InvalidPattern => ErrorKind::Configuration,
            Error::ProblemExists { .. } => ErrorKind::Io,
            Error::MissingEntry { .. } => ErrorKind::Io,
            Error::NoTests => ErrorKind::Io,
        }
    }

    /// What the failure is and what it concerns, in words.
    pub open spec fn spec_message(&self) -> Seq<char> {
        match self {
            Error::SettingsUnreadable { detail } => "Failed to parse settings file: "@ + detail@,
            Error::SettingsVersion { found } => "The settings file version does not match! Expected '0.2', got '"@
                + found@ + "'"@,
            Error::MissingLanguage { lang } => "Could not get settings for language `"@ + lang@
                + "`"@,
            Error::EmptyCompileCommand { lang } => "compile_command specified in the settings, but array is empty, for language `"@
                + lang@ + "`"@,
            Error::EmptyRunCommand { lang } => "No run command specified in the settings. It must be specified! Language `"@
                + lang@ + "`"@,
            Error::LanguageMismatch { file_lang, lang } => "Language from file extension ("@
                + file_lang@ + ") does not match provided language ("@ + lang@ + ")"@,
            Error::MissingExtension { name } => "Failed to get file extension of "@ + name@,
            Error::SourceMissing { category, path } => category.spec_name()
                + " file does not exist: "@ + path@,
            Error::NotAnInput { name } => "Failed to strip suffix of test file "@ + name@,
            Error::TestExists { path } => "Test file already exists: "@ + path@
                + ", use `--test-name` to specify another name"@,
            Error::CompileNotStarted { lang } => "Failed to start the compile command of language `"@
                + lang@ + "`"@,
            Error::CompileFailed { lang } => "The compile command of language `"@ + lang@
                + "` failed"@,
            Error::TooFewSolutions { given } => "At least two solutions are required."@,
            Error::DifficultyTooHigh { difficulty } => "You cannot have a difficulty of over 5000"@,
            Error::InvalidProblemName { name } => "The problem name is invalid. It may only contain alphanumeric characters, dashes, and underscores: "@
                + name@,
            Error::InvalidPattern => "The pattern for problem names is invalid"@,
            Error::ProblemExists { name } => "The problem '"@ + name@ + "' already exists!"@,
            Error::MissingEntry { entry } => "The folder structure is not valid! Missing file "@
                + entry@,
            Error::NoTests => "There are no test files present!"@,
        }
    }

    /// What the failure is and what it concerns, in words.
    pub fn message(&self) -> (text: String)
        ensures
            text@ == self.spec_message(),
    {
        match self {
            Error::SettingsUnreadable { detail } => {
                let mut text = String::from_str("Failed to parse settings file: ");
                text.append(detail.as_str());
                text
            },
            Error::SettingsVersion { found } => {
                let mut text = String::from_str(
                    "The settings file version does not match! Expected '0.2', got '",
                );
                text.append(found.as_str());
                text.append("'");
                text
            },
            Error::MissingLanguage { lang } => {
                let mut text = String::from_str("Could not get settings for language `");
                text.append(lang.as_str());
                text.append("`");
                text
            },
            Error::EmptyCompileCommand { lang } => {
                let mut text = String::from_str(
                    "compile_command specified in the settings, but array is empty, for language `",
                );
                text.append(lang.as_str());
                text.append("`");
                text
            },
            Error::EmptyRunCommand { lang } => {
                let mut text = String::from_str(
                    "No run command specified in the settings. It must be specified! Language `",
                );
                text.append(lang.as_str());
                text.append("`");
                text
            },
            Error::LanguageMismatch { file_lang, lang } => {
                let mut text = String::from_str("Language from file extension (");
                text.append(file_lang.as_str());
                text.append(") does not match provided language (");
                text.append(lang.as_str());
                text.append(")");
                text
            },
            Error::MissingExtension { name } => {
                let mut text = String::from_str("Failed to get file extension of ");
                text.append(name.as_str());
                text
            },
            Error::SourceMissing { category, path } => {
                let mut text = category.name();
                text.append(" file does not exist: ");
                text.append(path.as_str());
                text
            },
            Error::NotAnInput { name } => {
                let mut text = String::from_str("Failed to strip suffix of test file ");
                text.append(name.as_str());
                text
            },
            Error::TestExists { path } => {
                let mut text = String::from_str("Test file already exists: ");
                text.append(path.as_str());
                text.append(", use `--test-name` to specify another name");
                text
            },
            Error::CompileNotStarted { lang } => {
                let mut text = String::from_str(
                    "Failed to start the compile command of language `",
                );
                text.append(lang.as_str());
                text.append("`");
                text
            },
            Error::CompileFailed { lang } => {
                let mut text = String::from_str("The compile command of language `");
                text.append(lang.as_str());
                text.append("` failed");
                text
            },
            Error::TooFewSolutions { .. } => String::from_str(
                "At least two solutions are required.",
            ),
            Error::DifficultyTooHigh { .. } => String::from_str(
                "You cannot have a difficulty of over 5000",
            ),
            Error::InvalidProblemName { name } => {
                let mut text = String::from_str(
                    "The problem name is invalid. It may only contain alphanumeric characters, dashes, and underscores: ",
                );
                text.append(name.as_str());
                text
            },
            Error::InvalidPattern => String::from_str("The pattern for problem names is invalid"),
            Error::ProblemExists { name } => {
                let mut text = String::from_str("The problem '");
                text.append(name.as_str());
                text.append("' already exists!");
                text
            },
            Error::MissingEntry { entry } => {
                let mut text = String::from_str("The folder structure is not valid! Missing file ");
                text.append(entry.as_str());
                text
            },
            Error::NoTests => String::from_str("There are no test files present!"),
        }
    }
}

} // verus!
