//! Generating one test input with a generator.

use vstd::prelude::*;
use vstd::string::*;
use crate::batch::{single_artifact, single_artifact_name, test_file_path, test_path, OutputFile};
use crate::error::Error;
use crate::run::{relative_path, RunResult, RunnableCategory, RunnableFile};
use crate::util::{is_input_name, stem};

verus! {

/// The file name of the input of the test called `test_name`.
pub open spec fn input_name(test_name: Seq<char>) -> Seq<char> {
    test_name + ".in"@
}

/// The input file of a test is recognised as an input, and its name
/// without the suffix is the test's name.
pub proof fn lemma_input_name(test_name: Seq<char>)
    ensures
        is_input_name(input_name(test_name)),
        stem(input_name(test_name)) == test_name,
{
    let name = input_name(test_name);
    reveal_strlit(".in");
    assert(name.subrange(name.len() - 3, name.len() as int) =~= ".in"@);
    assert(name.subrange(0, name.len() - 3) =~= test_name);
}

/// The file name of the input of the test called `test_name`.
pub fn input_file_name(test_name: &str) -> (name: String)
    ensures
        name@ == input_name(test_name@),
        is_input_name(name@),
        stem(name@) == test_name@,
{
    proof {
        lemma_input_name(test_name@);
    }
    let mut name = String::from_str(test_name);
    name.append(".in");
    name
}

/// What it takes to generate one test input.
#[derive(Clone, Debug, PartialEq, Eq)]
pub struct GenerateRequest {
    /// Where the generated input goes, relative to the problem's folder.
    pub test_path: String,
    /// Where the generator's compiled artifact goes.
    pub bin_file: String,
    /// The path that stands for `@script_file` in the generator's commands.
    pub script_file: String,
}

/// Prepares the generation of the input of the test called `test_name`.
///
/// `taken` says whether a file exists already where the input is to go; an
/// existing test is never overwritten.
pub fn generate(generator: &RunnableFile, test_name: &str, taken: bool) -> (request: Result<
    GenerateRequest,
    Error,
>)
    ensures
        match request {
            Ok(request) => {
                &&& !taken
                &&& request.test_path@ == test_file_path(input_name(test_name@))
                &&& request.bin_file@ == single_artifact_name(RunnableCategory::Generator)
                &&& request.script_file@ == relative_path(generator@.category, generator@.name)
            },
            Err(e) => {
                &&& taken
                &&& e matches Error::TestExists { path }
                &&& path@ == test_file_path(input_name(test_name@))
            },
        },
{
    let test_path = test_path(input_file_name(test_name).as_str());
    if taken {
        return Err(Error::TestExists { path: test_path });
    }
    Ok(
        GenerateRequest {
            test_path,
            bin_file: single_artifact(RunnableCategory::Generator),
            script_file: generator.path(),
        },
    )
}

impl GenerateRequest {
    /// The file to write once the generator has run: what it printed
    /// becomes the test input.
    pub fn input_file(self, result: RunResult) -> (file: OutputFile)
        ensures
            file.path@ == self.test_path@,
            file.contents@ == result@.output,
    {
        OutputFile { path: self.test_path, contents: result.output }
    }
}

} // verus!
