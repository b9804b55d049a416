use aucpl::config::Settings;
use aucpl::error::{Error, ErrorKind};
use aucpl::run::{RunnableCategory, RunnableFile};
use aucpl::util::get_lang_from_extension;

fn text(s: &str) -> String {
    s.to_string()
}

#[test]
fn name_alone_gives_the_language_of_its_extension() {
    let settings = Settings::default();
    let name = text("sol.py");
    let file = RunnableFile::new(&settings, RunnableCategory::Solution, Some(&name), None).unwrap();
    assert_eq!(file.name(), "sol.py");
    assert_eq!(file.lang(), "py");
    assert_eq!(file.category(), RunnableCategory::Solution);
}

#[test]
fn language_alone_gives_the_default_name() {
    let settings = Settings::default();
    let lang = text("cpp");
    let file = RunnableFile::new(&settings, RunnableCategory::Solution, None, Some(&lang)).unwrap();
    assert_eq!(file.name(), "solution.cpp");
    assert_eq!(file.lang(), "cpp");
}

#[test]
fn language_alone_names_a_generator_after_its_category() {
    let settings = Settings::default();
    let lang = text("rs");
    let file = RunnableFile::new(&settings, RunnableCategory::Generator, None, Some(&lang)).unwrap();
    assert_eq!(file.name(), "generator.rs");
    assert_eq!(file.lang(), "rs");
    assert_eq!(file.category(), RunnableCategory::Generator);
}

#[test]
fn nothing_given_falls_back_to_the_configured_defaults() {
    let mut settings = Settings::default();
    let solution = RunnableFile::new(&settings, RunnableCategory::Solution, None, None).unwrap();
    assert_eq!(solution.name(), "solution.cpp");
    assert_eq!(solution.lang(), "cpp");
    let generator = RunnableFile::new(&settings, RunnableCategory::Generator, None, None).unwrap();
    assert_eq!(generator.name(), "generator.py");
    assert_eq!(generator.lang(), "py");

    settings.problem.default_lang = text("java");
    settings.problem.default_generator_lang = text("hs");
    let solution = RunnableFile::new(&settings, RunnableCategory::Solution, None, None).unwrap();
    assert_eq!(solution.name(), "solution.java");
    let generator = RunnableFile::new(&settings, RunnableCategory::Generator, None, None).unwrap();
    assert_eq!(generator.name(), "generator.hs");
    assert_eq!(generator.lang(), "hs");
}

#[test]
fn name_and_matching_language_are_accepted() {
    let settings = Settings::default();
    let name = text("brute.cpp");
    let lang = text("cpp");
    let file =
        RunnableFile::new(&settings, RunnableCategory::Solution, Some(&name), Some(&lang)).unwrap();
    assert_eq!(file.name(), "brute.cpp");
    assert_eq!(file.lang(), "cpp");
}

#[test]
fn name_and_other_language_are_a_mismatch() {
    let settings = Settings::default();
    let name = text("sol.py");
    let lang = text("cpp");
    let err = RunnableFile::new(&settings, RunnableCategory::Solution, Some(&name), Some(&lang))
        .unwrap_err();
    assert_eq!(err, Error::LanguageMismatch { file_lang: text("py"), lang: text("cpp") });
    assert_eq!(err.kind(), ErrorKind::Resolution);
    assert_eq!(
        err.message(),
        "Language from file extension (py) does not match provided language (cpp)"
    );
}

#[test]
fn name_without_extension_cannot_be_resolved() {
    let settings = Settings::default();
    let name = text("Makefile");
    let err =
        RunnableFile::new(&settings, RunnableCategory::Solution, Some(&name), None).unwrap_err();
    assert_eq!(err, Error::MissingExtension { name: text("Makefile") });
    assert_eq!(err.kind(), ErrorKind::Resolution);
    let lang = text("cpp");
    let err = RunnableFile::new(&settings, RunnableCategory::Solution, Some(&name), Some(&lang))
        .unwrap_err();
    assert_eq!(err, Error::MissingExtension { name: text("Makefile") });
}

#[test]
fn extension_is_what_follows_the_last_dot_of_the_file_name() {
    assert_eq!(get_lang_from_extension("sol.py").unwrap(), "py");
    assert_eq!(get_lang_from_extension("archive.tar.gz").unwrap(), "gz");
    assert_eq!(get_lang_from_extension("solutions/brute.force.cpp").unwrap(), "cpp");
    assert_eq!(get_lang_from_extension("a.b/solution.rs").unwrap(), "rs");
}

#[test]
fn extension_is_missing_without_a_dot_inside_the_file_name() {
    assert_eq!(
        get_lang_from_extension("solution").unwrap_err(),
        Error::MissingExtension { name: text("solution") }
    );
    assert_eq!(
        get_lang_from_extension(".hidden").unwrap_err(),
        Error::MissingExtension { name: text(".hidden") }
    );
    assert_eq!(
        get_lang_from_extension("a.b/solution").unwrap_err(),
        Error::MissingExtension { name: text("a.b/solution") }
    );
    assert_eq!(get_lang_from_extension("").unwrap_err(), Error::MissingExtension { name: text("") });
}

#[test]
fn resolve_takes_the_extension_as_given() {
    let settings = Settings::default();
    let name = text("weird");
    let file = RunnableFile::resolve(
        &settings,
        RunnableCategory::Solution,
        Some(&name),
        Some(text("py")),
        None,
    )
    .unwrap();
    assert_eq!(file.name(), "weird");
    assert_eq!(file.lang(), "py");
    let lang = text("cpp");
    let file = RunnableFile::resolve(
        &settings,
        RunnableCategory::Solution,
        None,
        Some(text("py")),
        Some(&lang),
    )
    .unwrap();
    assert_eq!(file.name(), "solution.cpp");
    assert_eq!(file.lang(), "cpp");
}

#[test]
fn categories_name_their_files_and_folders() {
    assert_eq!(RunnableCategory::Solution.name(), "solution");
    assert_eq!(RunnableCategory::Generator.name(), "generator");
    assert_eq!(RunnableCategory::Solution.folder(), "solutions");
    assert_eq!(RunnableCategory::Generator.folder(), "generators");
}

#[test]
fn a_file_lies_in_the_folder_of_its_category() {
    let settings = Settings::default();
    let name = text("sol.py");
    let file = RunnableFile::new(&settings, RunnableCategory::Solution, Some(&name), None).unwrap();
    assert_eq!(file.path(), "solutions/sol.py");
    let file = RunnableFile::new(&settings, RunnableCategory::Generator, None, None).unwrap();
    assert_eq!(file.path(), "generators/generator.py");
}
