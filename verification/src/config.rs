//! The language configuration that the engine consumes.

use vstd::prelude::*;
use vstd::string::*;
use crate::error::Error;
use crate::util::texts;

verus! {

/// The version of the settings format that this engine understands.
pub open spec fn settings_version() -> Seq<char> {
    "0.2"@
}


/// How one language is compiled, if at all, and run.
#[derive(Clone, Debug, PartialEq, Eq)]
pub struct LangSolution {
    /// The command that compiles a source file; `None` for a language that
    /// needs no compilation.
    pub compile_command: Option<Vec<String>>,
    /// The command that runs a solution or generator.
    pub run_command: Option<Vec<String>>,
}

impl LangSolution {
    /// A profile can be used if its compile command, where it declares one,
    /// is not empty, and if it has a run command that is not empty.
    pub open spec fn spec_is_valid(&self) -> bool {
        &&& self.compile_command matches Some(tokens) ==> tokens@.len() > 0
        &&& self.run_command matches Some(tokens) && tokens@.len() > 0
    }

    /// Whether the profile can be used.
    #[verifier::when_used_as_spec(spec_is_valid)]
    pub fn is_valid(&self) -> (valid: bool)
        ensures
            valid == self.is_valid(),
    {
        let compiles = match &self.compile_command {
            Some(tokens) => tokens.len() > 0,
            None => true,
        };
        let runs = match &self.run_command {
            Some(tokens) => tokens.len() > 0,
            None => false,
        };
        compiles && runs
    }
}

/// One language's profile, by name.
#[derive(Debug)]
pub struct LangEntry {
    pub lang: String,
    pub profile: LangSolution,
}

/// The map that a list of entries stands for; a later entry for a language
/// replaces an earlier one.
pub open spec fn table_of(entries: Seq<LangEntry>) -> Map<Seq<char>, LangSolution>
    decreases entries.len(),
{
    if entries.len() == 0 {
        Map::empty()
    } else {
        table_of(entries.drop_last()).insert(entries.last().lang@, entries.last().profile)
    }
}

/// No language occurs twice.
pub open spec fn distinct_langs(entries: Seq<LangEntry>) -> bool {
    forall|i: int, j: int|
        0 <= i < j < entries.len() ==> (#[trigger] entries[i]).lang@ != (#[trigger] entries[j]).lang@
}

proof fn lemma_table_dom(entries: Seq<LangEntry>, lang: Seq<char>)
    ensures
        table_of(entries).dom().contains(lang) <==> exists|i: int|
            0 <= i < entries.len() && (#[trigger] entries[i]).lang@ == lang,
    decreases entries.len(),
{
    if entries.len() > 0 {
        let front = entries.drop_last();
        lemma_table_dom(front, lang);
        if table_of(entries).dom().contains(lang) {
            if entries.last().lang@ == lang {
                assert(entries[entries.len() - 1].lang@ == lang);
            } else {
                let i = choose|i: int| 0 <= i < front.len() && (#[trigger] front[i]).lang@ == lang;
                assert(entries[i].lang@ == lang);
            }
        }
        if exists|i: int| 0 <= i < entries.len() && (#[trigger] entries[i]).lang@ == lang {
            let i = choose|i: int| 0 <= i < entries.len() && (#[trigger] entries[i]).lang@ == lang;
            if i < front.len() {
                assert(front[i].lang@ == lang);
            }
        }
    }
}

proof fn lemma_table_value(entries: Seq<LangEntry>, i: int)
    requires
        distinct_langs(entries),
        0 <= i < entries.len(),
    ensures
        table_of(entries).dom().contains(entries[i].lang@),
        table_of(entries)[entries[i].lang@] == entries[i].profile,
    decreases entries.len(),
{
    let front = entries.drop_last();
    if i < entries.len() - 1 {
        assert(distinct_langs(front)) by {
            assert forall|a: int, b: int| 0 <= a < b < front.len() implies (#[trigger] front[a]).lang@
                != (#[trigger] front[b]).lang@ by {
                assert(entries[a].lang@ != entries[b].lang@);
            }
        }
        lemma_table_value(front, i);
        assert(front[i] == entries[i]);
        assert(entries[i].lang@ != entries[entries.len() - 1].lang@);
    }
}

proof fn lemma_table_update(entries: Seq<LangEntry>, i: int, entry: LangEntry)
    requires
        distinct_langs(entries),
        0 <= i < entries.len(),
        entry.lang@ == entries[i].lang@,
    ensures
        distinct_langs(entries.update(i, entry)),
        table_of(entries.update(i, entry)) == table_of(entries).insert(entry.lang@, entry.profile),
    decreases entries.len(),
{
    let after = entries.update(i, entry);
    assert(distinct_langs(after)) by {
        assert forall|a: int, b: int| 0 <= a < b < after.len() implies (#[trigger] after[a]).lang@
            != (#[trigger] after[b]).lang@ by {
            assert(entries[a].lang@ != entries[b].lang@);
        }
    }
    let front = entries.drop_last();
    if i == entries.len() - 1 {
        assert(after.drop_last() =~= front);
        assert(table_of(after) =~= table_of(entries).insert(entry.lang@, entry.profile));
    } else {
        assert(distinct_langs(front)) by {
            assert forall|a: int, b: int| 0 <= a < b < front.len() implies (#[trigger] front[a]).lang@
                != (#[trigger] front[b]).lang@ by {
                assert(entries[a].lang@ != entries[b].lang@);
            }
        }
        lemma_table_update(front, i, entry);
        assert(after.drop_last() =~= front.update(i, entry));
        assert(after.last() == entries.last());
        assert(entries[i].lang@ != entries[entries.len() - 1].lang@);
        assert(table_of(after) =~= table_of(entries).insert(entry.lang@, entry.profile));
    }
}

/// The language profiles, keyed by language identifier.
#[derive(Debug)]
pub struct LanguageTable {
    entries: Vec<LangEntry>,
}

impl View for LanguageTable {
    type V = Map<Seq<char>, LangSolution>;

    closed spec fn view(&self) -> Map<Seq<char>, LangSolution> {
        table_of(self.entries@)
    }
}

impl LanguageTable {
    #[verifier::type_invariant]
    spec fn well_formed(&self) -> bool {
        distinct_langs(self.entries@)
    }

    /// A table without any language.
    pub fn new() -> (table: LanguageTable)
        ensures
            table@ == Map::<Seq<char>, LangSolution>::empty(),
    {
        LanguageTable { entries: Vec::new() }
    }

    /// The languages with their profiles, each language once.
    pub fn entries(&self) -> (entries: &Vec<LangEntry>)
        ensures
            table_of(entries@) == self@,
            distinct_langs(entries@),
    {
        proof {
            use_type_invariant(self);
        }
        &self.entries
    }

    /// The profile of `lang`, if the table has one.
    pub fn get(&self, lang: &String) -> (found: Option<&LangSolution>)
        ensures
            match found {
                Some(profile) => self@.dom().contains(lang@) && *profile == self@[lang@],
                None => !self@.dom().contains(lang@),
            },
    {
        proof {
            use_type_invariant(self);
        }
        let n: usize = self.entries.len();
        let mut i: usize = 0;
        while i < n
            invariant
                0 <= i <= n,
                n == self.entries@.len(),
                distinct_langs(self.entries@),
                forall|k: int| 0 <= k < i ==> (#[trigger] self.entries@[k]).lang@ != lang@,
            decreases n - i,
        {
            if self.entries[i].lang == *lang {
                proof {
                    lemma_table_value(self.entries@, i as int);
                }
                return Some(&self.entries[i].profile);
            }
            i = i + 1;
        }
        proof {
            lemma_table_dom(self.entries@, lang@);
        }
        None
    }

    /// Sets the profile of `lang`, replacing the one it had.
    pub fn insert(&mut self, lang: String, profile: LangSolution)
        ensures
            final(self)@ == old(self)@.insert(lang@, profile),
    {
        proof {
            use_type_invariant(&*self);
        }
        let mut entries: Vec<LangEntry> = Vec::new();
        core::mem::swap(&mut self.entries, &mut entries);
        let ghost before = entries@;
        let n: usize = entries.len();
        let mut i: usize = 0;
        let mut found: Option<usize> = None;
        while i < n && found.is_none()
            invariant
                0 <= i <= n,
                n == entries@.len(),
                found matches Some(k) ==> k < n && entries@[k as int].lang@ == lang@,
                found is None ==> forall|k: int|
                    0 <= k < i ==> (#[trigger] entries@[k]).lang@ != lang@,
            decreases n - i + if found.is_none() { 1int } else { 0int },
        {
            if entries[i].lang == lang {
                found = Some(i);
            } else {
                i = i + 1;
            }
        }
        let entry = LangEntry { lang, profile };
        match found {
            Some(k) => {
                proof {
                    lemma_table_update(before, k as int, entry);
                }
                entries.set(k, entry);
            },
            None => {
                proof {
                    let after = before.push(entry);
                    assert(after.drop_last() =~= before);
                    assert forall|a: int, b: int| 0 <= a < b < after.len() implies (
                    #[trigger] after[a]).lang@ != (#[trigger] after[b]).lang@ by {
                        if b < n {
                            assert(before[a].lang@ != before[b].lang@);
                        } else {
                            assert(before[a].lang@ != entry.lang@);
                        }
                    }
                }
                entries.push(entry);
            },
        }
        core::mem::swap(&mut self.entries, &mut entries);
    }
}

/// What the engine needs to know about problems.
#[derive(Debug)]
pub struct Problem {
    /// The language of a solution when none is named.
    pub default_lang: String,
    /// The language of a generator when none is named.
    pub default_generator_lang: String,
    /// The profile of each language.
    pub solution: LanguageTable,
}

/// The settings of a project.
#[derive(Debug)]
pub struct Settings {
    /// The version of the settings format.
    pub version: String,
    /// The folder that holds the problems, relative to the project root.
    pub problems_dir: String,
    /// The settings that concern problems.
    pub problem: Problem,
}

impl Default for Settings {
    fn default() -> (settings: Settings)
        ensures
            settings.version@ == settings_version(),
            settings.problems_dir@ == "problems"@,
            settings.problem.default_lang@ == "cpp"@,
            settings.problem.default_generator_lang@ == "py"@,
            settings.problem.solution@ == Map::<Seq<char>, LangSolution>::empty(),
    {
        Settings {
            version: String::from_str("0.2"),
            problems_dir: String::from_str("problems"),
            problem: Problem {
                default_lang: String::from_str("cpp"),
                default_generator_lang: String::from_str("py"),
                solution: LanguageTable::new(),
            },
        }
    }
}

/// Accepts settings as they were loaded, or says why they cannot be used:
/// they could not be read, or they are of another version.
pub fn get_settings(loaded: Result<Settings, String>) -> (checked: Result<Settings, Error>)
    ensures
        match loaded {
            Ok(settings) => if settings.version@ == settings_version() {
                checked == Ok::<Settings, Error>(settings)
            } else {
                checked matches Err(Error::SettingsVersion { found }) && found@ == settings.version@
            },
            Err(detail) => checked matches Err(Error::SettingsUnreadable { detail: d }) && d@
                == detail@,
        },
{
    match loaded {
        Ok(settings) => {
            let expected = String::from_str("0.2");
            if settings.version == expected {
                Ok(settings)
            } else {
                Err(Error::SettingsVersion { found: settings.version })
            }
        },
        Err(detail) => Err(Error::SettingsUnreadable { detail }),
    }
}

} // verus!
