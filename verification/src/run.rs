//! Runnable files, the commands built from them, and what one run yields.

use vstd::prelude::*;
use vstd::string::*;
use crate::config::{LangSolution, Settings};
use crate::error::Error;
use crate::util::{get_lang_from_extension, path_extension, texts};

verus! {

/// What a runnable file is for.
#[derive(Clone, Copy, Debug, PartialEq, Eq, Structural)]
pub enum RunnableCategory {
    /// A program that reads a test input and prints the answer.
    Solution,
    /// A program that prints a test input.
    Generator,
}

impl RunnableCategory {
    /// The category's name: `solution` or `generator`.
    pub open spec fn spec_name(&self) -> Seq<char> {
        match self {
            RunnableCategory::Solution => "solution"@,
            RunnableCategory::Generator => "generator"@,
        }
    }

    /// The folder of a problem that holds the files of this category:
    /// the category's name and an `s`.
    pub open spec fn spec_folder(&self) -> Seq<char> {
        self.spec_name() + seq!['s']
    }

    /// The category's name, which is also the default base name of its files.
    pub fn name(&self) -> (name: String)
        ensures
            name@ == self.spec_name(),
    {
        match self {
            RunnableCategory::Solution => String::from_str("solution"),
            RunnableCategory::Generator => String::from_str("generator"),
        }
    }

    /// The folder of a problem that holds the files of this category.
    pub fn folder(&self) -> (folder: String)
        ensures
            folder@ == self.spec_folder(),
    {
        let mut folder = self.name();
        folder.append("s");
        proof {
            reveal_strlit("s");
            assert("s"@ =~= seq!['s']);
        }
        folder
    }
}

/// What one execution of a run command produced: everything the process
/// wrote to its standard output, and how long the process took. How the
/// process exited is not part of it: a run that crashed counts with whatever
/// it had printed.
#[derive(Clone, Debug, PartialEq, Eq)]
pub struct RunResult {
    /// The captured standard output.
    pub output: String,
    /// Wall-clock time around the process, in nanoseconds.
    pub elapsed_time: u64,
}

/// The mathematical content of a [`RunResult`].
pub struct RunView {
    pub output: Seq<char>,
    pub elapsed: u64,
}

impl View for RunResult {
    type V = RunView;

    open spec fn view(&self) -> RunView {
        RunView { output: self.output@, elapsed: self.elapsed_time }
    }
}

impl RunResult {
    /// The result of a run that printed `output` and took `nanoseconds`. A
    /// run longer than can be reported counts with the longest time that
    /// can.
    pub fn new(output: String, nanoseconds: u128) -> (result: RunResult)
        ensures
            result.output@ == output@,
            result.elapsed_time == if nanoseconds > u64::MAX {
                u64::MAX as int
            } else {
                nanoseconds as int
            },
    {
        let elapsed_time: u64 = if nanoseconds > u64::MAX as u128 {
            u64::MAX
        } else {
            nanoseconds as u64
        };
        RunResult { output, elapsed_time }
    }
}

/// A source or script file of a problem, with the language it is written in.
#[derive(Debug)]
pub struct RunnableFile {
    category: RunnableCategory,
    name: String,
    lang: String,
}

/// The mathematical content of a [`RunnableFile`].
pub struct FileView {
    pub category: RunnableCategory,
    pub name: Seq<char>,
    pub lang: Seq<char>,
}

impl View for RunnableFile {
    type V = FileView;

    closed spec fn view(&self) -> FileView {
        FileView { category: self.category, name: self.name@, lang: self.lang@ }
    }
}

/// The name a file of `category` gets when only its language is known.
pub open spec fn default_name(category: RunnableCategory, lang: Seq<char>) -> Seq<char> {
    category.spec_name() + seq!['.'] + lang
}

/// The language a file of `category` gets when nothing is known of it.
pub open spec fn default_lang(settings: &Settings, category: RunnableCategory) -> Seq<char> {
    match category {
        RunnableCategory::Solution => settings.problem.default_lang@,
        RunnableCategory::Generator => settings.problem.default_generator_lang@,
    }
}

/// Where a file of `category` called `name` lies in its problem's folder.
pub open spec fn relative_path(category: RunnableCategory, name: Seq<char>) -> Seq<char> {
    category.spec_folder() + seq!['/'] + name
}

/// `resolved` is what resolution yields for a request that gives `name` and
/// `language`, each or neither, where `extension` is the extension of `name`.
pub open spec fn resolves_to(
    settings: &Settings,
    category: RunnableCategory,
    name: Option<Seq<char>>,
    extension: Option<Seq<char>>,
    language: Option<Seq<char>>,
    resolved: Result<RunnableFile, Error>,
) -> bool {
    match name {
        Some(name) => match extension {
            None => {
                &&& resolved matches Err(Error::MissingExtension { name: reported })
                &&& reported@ == name
            },
            Some(file_lang) => if language is Some && language->0 != file_lang {
                &&& resolved matches Err(Error::LanguageMismatch { file_lang: found, lang: wanted })
                &&& found@ == file_lang
                &&& wanted@ == language->0
            } else {
                &&& resolved matches Ok(file)
                &&& file@ == FileView { category, name, lang: file_lang }
            },
        },
        None => {
            let lang = match language {
                Some(lang) => lang,
                None => default_lang(settings, category),
            };
            &&& resolved matches Ok(file)
            &&& file@ == FileView { category, name: default_name(category, lang), lang }
        },
    }
}

/// The view of an optional string.
pub open spec fn optional_text(text: Option<&String>) -> Option<Seq<char>> {
    match text {
        Some(text) => Some(text@),
        None => None,
    }
}

impl RunnableFile {
    /// The file's category.
    pub fn category(&self) -> (category: RunnableCategory)
        ensures
            category == self@.category,
    {
        self.category
    }

    /// The file's name, without any folder.
    pub fn name(&self) -> (name: &String)
        ensures
            name@ == self@.name,
    {
        &self.name
    }

    /// The identifier of the file's language.
    pub fn lang(&self) -> (lang: &String)
        ensures
            lang@ == self@.lang,
    {
        &self.lang
    }

    /// Where the file lies in its problem's folder: `solutions/` or
    /// `generators/`, then its name.
    pub fn path(&self) -> (path: String)
        ensures
            path@ == relative_path(self@.category, self@.name),
    {
        let mut path = self.category.folder();
        path.append("/");
        path.append(self.name.as_str());
        proof {
            reveal_strlit("/");
            assert("/"@ =~= seq!['/']);
        }
        path
    }

    /// Resolves a request like [`RunnableFile::new`], given the extension of
    /// the requested name. `extension` is not looked at when `name` is `None`.
    pub fn resolve(
        settings: &Settings,
        category: RunnableCategory,
        name: Option<&String>,
        extension: Option<String>,
        language: Option<&String>,
    ) -> (resolved: Result<RunnableFile, Error>)
        ensures
            resolves_to(
                settings,
                category,
                optional_text(name),
                match extension {
                    Some(ext) => Some(ext@),
                    None => None,
                },
                optional_text(language),
                resolved,
            ),
    {
        match name {
            Some(name) => match extension {
                None => Err(Error::MissingExtension { name: name.clone() }),
                Some(file_lang) => {
                    match language {
                        Some(lang) => {
                            if file_lang != *lang {
                                return Err(
                                    Error::LanguageMismatch { file_lang, lang: lang.clone() },
                                );
                            }
                        },
                        None => {},
                    }
                    Ok(RunnableFile { category, name: name.clone(), lang: file_lang })
                },
            },
            None => {
                let lang = match language {
                    Some(lang) => lang.clone(),
                    None => match category {
                        RunnableCategory::Solution => settings.problem.default_lang.clone(),
                        RunnableCategory::Generator => settings.problem.default_generator_lang.clone(),
                    },
                };
                let mut name = category.name();
                name.append(".");
                name.append(lang.as_str());
                proof {
                    reveal_strlit(".");
                    assert("."@ =~= seq!['.']);
                }
                Ok(RunnableFile { category, name, lang })
            },
        }
    }

    /// Decides which file of a problem is meant and in which language it is
    /// written.
    ///
    /// With a name, the language is the name's extension; a language given
    /// beside it has to be that extension. With a language only, the name is
    /// the category's name with the language as extension. With neither, the
    /// language is the one the settings name for the category.
    pub fn new(
        settings: &Settings,
        category: RunnableCategory,
        name: Option<&String>,
        language: Option<&String>,
    ) -> (resolved: Result<RunnableFile, Error>)
        ensures
            resolves_to(
                settings,
                category,
                optional_text(name),
                match name {
                    Some(name) => path_extension(name@),
                    None => None,
                },
                optional_text(language),
                resolved,
            ),
    {
        let extension = match name {
            Some(name) => match get_lang_from_extension(name.as_str()) {
                Ok(ext) => Some(ext),
                Err(_) => None,
            },
            None => None,
        };
        RunnableFile::resolve(settings, category, name, extension, language)
    }
}

/// What a token of a compile command stands for: `@in_file` for the source
/// file, `@bin_file` for the artifact to produce, any other token for itself.
pub open spec fn compile_token(token: Seq<char>, source: Seq<char>, bin_file: Seq<char>) -> Seq<
    char,
> {
    if token == "@in_file"@ {
        source
    } else if token == "@bin_file"@ {
        bin_file
    } else {
        token
    }
}

/// What a token of a run command stands for: `@bin_file` for the compiled
/// artifact, `@script_file` for the source file, any other token for itself.
pub open spec fn run_token(token: Seq<char>, bin_file: Seq<char>, script_file: Seq<char>) -> Seq<
    char,
> {
    if token == "@bin_file"@ {
        bin_file
    } else if token == "@script_file"@ {
        script_file
    } else {
        token
    }
}

/// The process to spawn for a compile command: every token is substituted,
/// the first one, which names the program, too.
pub open spec fn compile_argv(command: Seq<Seq<char>>, source: Seq<char>, bin_file: Seq<char>) -> Seq<
    Seq<char>,
> {
    Seq::new(command.len(), |i: int| compile_token(command[i], source, bin_file))
}

/// The process to spawn for a run command: every token is substituted, the
/// first one, which names the program, too.
pub open spec fn run_argv(command: Seq<Seq<char>>, bin_file: Seq<char>, script_file: Seq<char>) -> Seq<
    Seq<char>,
> {
    Seq::new(command.len(), |i: int| run_token(command[i], bin_file, script_file))
}

/// The tokens of an optional command; none where there is no command.
pub open spec fn command_tokens(command: Option<Vec<String>>) -> Seq<Seq<char>> {
    match command {
        Some(tokens) => texts(tokens@),
        None => Seq::empty(),
    }
}

/// A copy of a list of tokens.
fn copy_tokens(tokens: &Vec<String>) -> (copy: Vec<String>)
    ensures
        texts(copy@) == texts(tokens@),
{
    let mut copy: Vec<String> = Vec::new();
    let n: usize = tokens.len();
    let mut i: usize = 0;
    while i < n
        invariant
            0 <= i <= n,
            n == tokens@.len(),
            copy@.len() == i,
            forall|k: int| 0 <= k < i ==> (#[trigger] copy@[k])@ == tokens@[k]@,
        decreases n - i,
    {
        copy.push(tokens[i].clone());
        i = i + 1;
    }
    assert(texts(copy@) =~= texts(tokens@));
    copy
}

/// How the compile command ended.
#[derive(Clone, Copy, Debug, PartialEq, Eq, Structural)]
pub enum CompileOutcome {
    /// The process could not be started.
    NotStarted,
    /// The process ran and exited with this code.
    Exited { code: u32 },
    /// The process ended without an exit code.
    Killed,
}

/// A command that is ready to run a solution or generator, any number of
/// times. It owns the compiled artifact at `bin_file`, if compiling made one.
#[derive(Debug)]
pub struct RunCommand {
    bin_file: String,
    script_file: String,
    run_command: Vec<String>,
}

/// The mathematical content of a [`RunCommand`].
pub struct CommandView {
    pub bin_file: Seq<char>,
    pub script_file: Seq<char>,
    pub run_command: Seq<Seq<char>>,
}

impl View for RunCommand {
    type V = CommandView;

    closed spec fn view(&self) -> CommandView {
        CommandView {
            bin_file: self.bin_file@,
            script_file: self.script_file@,
            run_command: texts(self.run_command@),
        }
    }
}

impl RunCommand {
    #[verifier::type_invariant]
    spec fn well_formed(&self) -> bool {
        self.run_command@.len() > 0
    }
}

/// A command whose source still has to be compiled.
#[derive(Debug)]
pub struct PendingCommand {
    lang: String,
    bin_file: String,
    script_file: String,
    run_command: Vec<String>,
}

/// The mathematical content of a [`PendingCommand`]: the language whose
/// compile command is to run, and the command that results if it succeeds.
pub struct PendingView {
    pub lang: Seq<char>,
    pub command: CommandView,
}

impl View for PendingCommand {
    type V = PendingView;

    closed spec fn view(&self) -> PendingView {
        PendingView {
            lang: self.lang@,
            command: CommandView {
                bin_file: self.bin_file@,
                script_file: self.script_file@,
                run_command: texts(self.run_command@),
            },
        }
    }
}

/// What has to happen next to make a file runnable.
#[derive(Debug)]
pub enum BuildStep {
    /// Nothing: the language is not compiled, the command is ready.
    Ready(RunCommand),
    /// Spawn `argv`, wait for it, and hand how it ended to
    /// [`PendingCommand::finish`].
    Compile { argv: Vec<String>, pending: PendingCommand },
}

/// What building a command leads to, as a function of what is known before
/// any process is spawned.
pub enum BuildPlan {
    /// The source file is missing.
    SourceMissing,
    /// There is no profile for the file's language.
    MissingLanguage,
    /// The profile declares a compile command without any token.
    EmptyCompileCommand,
    /// The profile needs no compilation and has no run command.
    EmptyRunCommand,
    /// The profile needs no compilation: the command is ready.
    Ready(CommandView),
    /// The profile's compile command has to run first.
    Compile(Seq<Seq<char>>, PendingView),
}

/// The plan for `file`, whose source was found at `source` or not at all,
/// with the artifact and script paths it is to use.
pub open spec fn build_plan(
    settings: &Settings,
    file: FileView,
    source: Option<Seq<char>>,
    bin_file: Seq<char>,
    script_file: Seq<char>,
) -> BuildPlan {
    let table = settings.problem.solution@;
    if source is None {
        BuildPlan::SourceMissing
    } else if !table.dom().contains(file.lang) {
        BuildPlan::MissingLanguage
    } else {
        let profile = table[file.lang];
        let command = CommandView {
            bin_file,
            script_file,
            run_command: command_tokens(profile.run_command),
        };
        match profile.compile_command {
            Some(tokens) => if tokens@.len() == 0 {
                BuildPlan::EmptyCompileCommand
            } else {
                BuildPlan::Compile(
                    compile_argv(texts(tokens@), source->0, bin_file),
                    PendingView { lang: file.lang, command },
                )
            },
            None => if command.run_command.len() == 0 {
                BuildPlan::EmptyRunCommand
            } else {
                BuildPlan::Ready(command)
            },
        }
    }
}

/// `step` carries out `plan` for `file`.
pub open spec fn follows_plan(step: Result<BuildStep, Error>, plan: BuildPlan, file: FileView) -> bool {
    match plan {
        BuildPlan::SourceMissing => {
            &&& step matches Err(Error::SourceMissing { category, path })
            &&& category == file.category
            &&& path@ == relative_path(file.category, file.name)
        },
        BuildPlan::MissingLanguage => {
            &&& step matches Err(Error::MissingLanguage { lang })
            &&& lang@ == file.lang
        },
        BuildPlan::EmptyCompileCommand => {
            &&& step matches Err(Error::EmptyCompileCommand { lang })
            &&& lang@ == file.lang
        },
        BuildPlan::EmptyRunCommand => {
            &&& step matches Err(Error::EmptyRunCommand { lang })
            &&& lang@ == file.lang
        },
        BuildPlan::Ready(command) => {
            &&& step matches Ok(BuildStep::Ready(ready))
            &&& ready@ == command
        },
        BuildPlan::Compile(argv, pending) => {
            &&& step matches Ok(BuildStep::Compile { argv: spawn, pending: waiting })
            &&& texts(spawn@) == argv
            &&& waiting@ == pending
        },
    }
}

/// A language without a compile command is never compiled: whatever its run
/// command holds, building a command for it asks for no process.
pub proof fn lemma_no_compile_without_command(
    settings: &Settings,
    file: FileView,
    source: Option<Seq<char>>,
    bin_file: Seq<char>,
    script_file: Seq<char>,
    step: Result<BuildStep, Error>,
)
    requires
        settings.problem.solution@.dom().contains(file.lang),
        settings.problem.solution@[file.lang].compile_command is None,
        follows_plan(step, build_plan(settings, file, source, bin_file, script_file), file),
    ensures
        !(build_plan(settings, file, source, bin_file, script_file) is Compile),
        !(step matches Ok(BuildStep::Compile { .. })),
{
}

/// Only a valid profile yields a command: a command is ready at once, or
/// after its compile command has run, only if the profile of the file's
/// language can be used.
pub proof fn lemma_command_needs_valid_profile(
    settings: &Settings,
    file: FileView,
    source: Option<Seq<char>>,
    bin_file: Seq<char>,
    script_file: Seq<char>,
    outcome: CompileOutcome,
    finished: Result<RunCommand, Error>,
)
    requires
        finished is Ok,
        match build_plan(settings, file, source, bin_file, script_file) {
            BuildPlan::Ready(command) => finished->Ok_0@ == command,
            BuildPlan::Compile(_, pending) => finishes_as(pending, outcome, finished),
            _ => false,
        },
    ensures
        settings.problem.solution@.dom().contains(file.lang),
        settings.problem.solution@[file.lang].is_valid(),
        finished->Ok_0@.run_command == command_tokens(
            settings.problem.solution@[file.lang].run_command,
        ),
{
}

/// What a compile command that ended with `outcome` leaves of `pending`.
pub open spec fn finishes_as(
    pending: PendingView,
    outcome: CompileOutcome,
    finished: Result<RunCommand, Error>,
) -> bool {
    match outcome {
        CompileOutcome::NotStarted => {
            &&& finished matches Err(Error::CompileNotStarted { lang })
            &&& lang@ == pending.lang
        },
        CompileOutcome::Exited { code } => if code != 0 {
            &&& finished matches Err(Error::CompileFailed { lang })
            &&& lang@ == pending.lang
        } else if pending.command.run_command.len() == 0 {
            &&& finished matches Err(Error::EmptyRunCommand { lang })
            &&& lang@ == pending.lang
        } else {
            &&& finished matches Ok(command)
            &&& command@ == pending.command
        },
        CompileOutcome::Killed => {
            &&& finished matches Err(Error::CompileFailed { lang })
            &&& lang@ == pending.lang
        },
    }
}

/// What to spawn for one run: the program with its arguments, and the file
/// to connect to its standard input, if any.
#[derive(Clone, Debug, PartialEq, Eq)]
pub struct Invocation {
    /// The program, then its arguments.
    pub argv: Vec<String>,
    /// The path of the file that the process reads as standard input.
    pub stdin: Option<String>,
}

impl PendingCommand {
    /// The language whose compile command is to run.
    pub fn lang(&self) -> (lang: &String)
        ensures
            lang@ == self@.lang,
    {
        &self.lang
    }

    /// Turns the end of the compile command into the ready command, or into
    /// the reason why there is none: the compiler did not start, it did not
    /// exit with code 0, or, after a successful compile, the language has no
    /// run command.
    pub fn finish(self, outcome: CompileOutcome) -> (finished: Result<RunCommand, Error>)
        ensures
            finishes_as(self@, outcome, finished),
    {
        match outcome {
            CompileOutcome::NotStarted => Err(Error::CompileNotStarted { lang: self.lang }),
            CompileOutcome::Killed => Err(Error::CompileFailed { lang: self.lang }),
            CompileOutcome::Exited { code } => {
                if code != 0 {
                    Err(Error::CompileFailed { lang: self.lang })
                } else if self.run_command.len() == 0 {
                    Err(Error::EmptyRunCommand { lang: self.lang })
                } else {
                    Ok(
                        RunCommand {
                            bin_file: self.bin_file,
                            script_file: self.script_file,
                            run_command: self.run_command,
                        },
                    )
                }
            },
        }
    }
}

impl RunCommand {
    /// Starts building the command that runs `file`.
    ///
    /// `source` is the absolute path at which the file was found, `None` if
    /// it was not found. `bin_file` is where a compiled artifact goes and
    /// `script_file` is the path that stands for `@script_file`.
    ///
    /// The checks come in this order: the source exists; the settings have a
    /// profile for the file's language; a declared compile command is not
    /// empty. A language that is not compiled then needs a run command, and
    /// the result is ready. A compiled one yields the process to spawn; its
    /// run command is looked at when the compiler has succeeded.
    pub fn new(
        settings: &Settings,
        file: &RunnableFile,
        source: Option<&String>,
        bin_file: String,
        script_file: String,
    ) -> (step: Result<BuildStep, Error>)
        ensures
            follows_plan(
                step,
                build_plan(settings, file@, optional_text(source), bin_file@, script_file@),
                file@,
            ),
    {
        let source = match source {
            Some(source) => source,
            None => {
                return Err(Error::SourceMissing { category: file.category, path: file.path() });
            },
        };
        let profile: &LangSolution = match settings.problem.solution.get(&file.lang) {
            Some(profile) => profile,
            None => {
                return Err(Error::MissingLanguage { lang: file.lang.clone() });
            },
        };
        let run_command = match &profile.run_command {
            Some(tokens) => copy_tokens(tokens),
            None => Vec::new(),
        };
        assert(texts(run_command@) =~= command_tokens(profile.run_command));
        match &profile.compile_command {
            Some(tokens) => {
                if tokens.len() == 0 {
                    return Err(Error::EmptyCompileCommand { lang: file.lang.clone() });
                }
                let argv = compile_invocation(tokens, source, &bin_file);
                let pending = PendingCommand {
                    lang: file.lang.clone(),
                    bin_file,
                    script_file,
                    run_command,
                };
                Ok(BuildStep::Compile { argv, pending })
            },
            None => {
                if run_command.len() == 0 {
                    return Err(Error::EmptyRunCommand { lang: file.lang.clone() });
                }
                Ok(BuildStep::Ready(RunCommand { bin_file, script_file, run_command }))
            },
        }
    }

    /// The path of the compiled artifact that the command owns.
    pub fn bin_file(&self) -> (path: &String)
        ensures
            path@ == self@.bin_file,
    {
        &self.bin_file
    }

    /// The path that stands for `@script_file`.
    pub fn script_file(&self) -> (path: &String)
        ensures
            path@ == self@.script_file,
    {
        &self.script_file
    }

    /// The tokens of the run command, as the settings give them. There is
    /// at least one.
    pub fn run_command(&self) -> (tokens: &Vec<String>)
        ensures
            texts(tokens@) == self@.run_command,
            tokens@.len() > 0,
    {
        proof {
            use_type_invariant(self);
        }
        &self.run_command
    }

    /// The process to spawn for one run, on the input at `input` if there is
    /// one: the run command with each `@bin_file` and `@script_file`
    /// replaced, in order.
    pub fn invocation(&self, input: Option<&String>) -> (invocation: Invocation)
        ensures
            invocation.argv@.len() > 0,
            texts(invocation.argv@) == run_argv(
                self@.run_command,
                self@.bin_file,
                self@.script_file,
            ),
            match invocation.stdin {
                Some(path) => input is Some && path@ == input->0@,
                None => input is None,
            },
    {
        proof {
            use_type_invariant(self);
        }
        let bin_token = String::from_str("@bin_file");
        let script_token = String::from_str("@script_file");
        let mut argv: Vec<String> = Vec::new();
        let n: usize = self.run_command.len();
        let mut i: usize = 0;
        while i < n
            invariant
                0 <= i <= n,
                n == self.run_command@.len(),
                bin_token@ == "@bin_file"@,
                script_token@ == "@script_file"@,
                argv@.len() == i,
                forall|k: int|
                    0 <= k < i ==> (#[trigger] argv@[k])@ == run_token(
                        self.run_command@[k]@,
                        self.bin_file@,
                        self.script_file@,
                    ),
            decreases n - i,
        {
            let token = &self.run_command[i];
            if *token == bin_token {
                argv.push(self.bin_file.clone());
            } else if *token == script_token {
                argv.push(self.script_file.clone());
            } else {
                argv.push(token.clone());
            }
            i = i + 1;
        }
        assert(texts(argv@) =~= run_argv(self@.run_command, self@.bin_file, self@.script_file));
        let stdin = match input {
            Some(path) => Some(path.clone()),
            None => None,
        };
        Invocation { argv, stdin }
    }

    /// The artifact to delete when the command is no longer needed: the
    /// compiled file, if it exists.
    pub fn cleanup(&self, artifact_exists: bool) -> (remove: Option<String>)
        ensures
            match remove {
                Some(path) => artifact_exists && path@ == self@.bin_file,
                None => !artifact_exists,
            },
    {
        cleanup_artifact(&self.bin_file, artifact_exists)
    }
}

/// The artifact to delete after a build that was started, whether it led to
/// a command or not: the file at `bin_file`, if it exists.
pub fn cleanup_artifact(bin_file: &String, artifact_exists: bool) -> (remove: Option<String>)
    ensures
        match remove {
            Some(path) => artifact_exists && path@ == bin_file@,
            None => !artifact_exists,
        },
{
    if artifact_exists {
        Some(bin_file.clone())
    } else {
        None
    }
}

/// The process that compiles `source` into `bin_file` with `command`.
fn compile_invocation(command: &Vec<String>, source: &String, bin_file: &String) -> (argv: Vec<
    String,
>)
    ensures
        texts(argv@) == compile_argv(texts(command@), source@, bin_file@),
{
    let in_token = String::from_str("@in_file");
    let bin_token = String::from_str("@bin_file");
    let mut argv: Vec<String> = Vec::new();
    let n: usize = command.len();
    let mut i: usize = 0;
    while i < n
        invariant
            0 <= i <= n,
            n == command@.len(),
            in_token@ == "@in_file"@,
            bin_token@ == "@bin_file"@,
            argv@.len() == i,
            forall|k: int|
                0 <= k < i ==> (#[trigger] argv@[k])@ == compile_token(
                    command@[k]@,
                    source@,
                    bin_file@,
                ),
        decreases n - i,
    {
        let token = &command[i];
        if *token == in_token {
            argv.push(source.clone());
        } else if *token == bin_token {
            argv.push(bin_file.clone());
        } else {
            argv.push(token.clone());
        }
        i = i + 1;
    }
    assert(texts(argv@) =~= compile_argv(texts(command@), source@, bin_file@));
    argv
}

} // verus!
