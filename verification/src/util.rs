//! File-name rules shared by the batch, comparison and fuzzing drivers.

use vstd::prelude::*;
use vstd::string::*;
use crate::error::Error;

verus! {

/// `name` ends with `suffix`.
pub open spec fn ends_with(name: Seq<char>, suffix: Seq<char>) -> bool {
    name.len() >= suffix.len() && name.subrange(name.len() - suffix.len(), name.len() as int)
        == suffix
}

/// A file name denotes a test input when it ends with `.in`.
pub open spec fn is_input_name(name: Seq<char>) -> bool {
    ends_with(name, ".in"@)
}

/// What is left of an input's name without its `.in`.
pub open spec fn stem(name: Seq<char>) -> Seq<char> {
    name.subrange(0, name.len() - 3)
}

/// The name of the file that holds the expected output of the input `name`.
pub open spec fn output_name(name: Seq<char>) -> Seq<char> {
    stem(name) + ".out"@
}

/// The names among `files` that denote test inputs, in their order.
pub open spec fn input_names(files: Seq<Seq<char>>) -> Seq<Seq<char>> {
    files.filter(|name: Seq<char>| is_input_name(name))
}

/// The views of a list of strings.
pub open spec fn texts(tokens: Seq<String>) -> Seq<Seq<char>> {
    tokens.map_values(|t: String| t@)
}

/// Whether `name` is the name of a test input.
pub fn is_input_file(name: &str) -> (b: bool)
    ensures
        b == is_input_name(name@),
{
    proof {
        reveal_strlit(".in");
    }
    let n: usize = name.unicode_len();
    if n < 3 {
        return false;
    }
    let b = name.get_char(n - 3) == '.' && name.get_char(n - 2) == 'i' && name.get_char(n - 1)
        == 'n';
    proof {
        let tail = name@.subrange(n - 3, n as int);
        assert(tail[0] == name@[n - 3]);
        assert(tail[1] == name@[n - 2]);
        assert(tail[2] == name@[n - 1]);
        if b {
            assert(tail =~= ".in"@);
        }
    }
    b
}

/// Keeps the test inputs among the files of a directory: the names that end
/// in `.in`, in the order in which the directory listed them.
pub fn get_input_files_in_directory(files: Vec<String>) -> (inputs: Vec<String>)
    ensures
        texts(inputs@) == input_names(texts(files@)),
{
    let ghost all = texts(files@);
    let ghost keep = |name: Seq<char>| is_input_name(name);
    let mut inputs: Vec<String> = Vec::new();
    let n: usize = files.len();
    let mut i: usize = 0;
    assert(all.take(0) =~= Seq::<Seq<char>>::empty());
    while i < n
        invariant
            0 <= i <= n,
            n == files@.len(),
            all == texts(files@),
            keep == |name: Seq<char>| is_input_name(name),
            texts(inputs@) == all.take(i as int).filter(keep),
        decreases n - i,
    {
        proof {
            assert(all.take(i + 1).drop_last() =~= all.take(i as int));
            assert(all.take(i + 1).last() == files@[i as int]@);
            reveal(Seq::filter);
        }
        if is_input_file(files[i].as_str()) {
            let name = files[i].clone();
            proof {
                assert(texts(inputs@.push(name)) =~= texts(inputs@).push(name@));
            }
            inputs.push(name);
        }
        i = i + 1;
    }
    proof {
        assert(all.take(n as int) =~= all);
    }
    inputs
}

/// The name of the expected-output file that belongs to a test input:
/// `.out` in place of `.in`. A name that does not end in `.in` has none.
pub fn output_file_name(input: &str) -> (output: Result<String, Error>)
    ensures
        match output {
            Ok(name) => is_input_name(input@) && name@ == output_name(input@),
            Err(e) => {
                &&& !is_input_name(input@)
                &&& e matches Error::NotAnInput { name }
                &&& name@ == input@
            },
        },
{
    if is_input_file(input) {
        proof {
            reveal_strlit(".in");
        }
        let n: usize = input.unicode_len();
        let mut name = String::from_str(input.substring_char(0, n - 3));
        name.append(".out");
        Ok(name)
    } else {
        Err(Error::NotAnInput { name: String::from_str(input) })
    }
}

/// What `std::path::Path::extension` gives for the path written `path`, as
/// text; `None` where it gives none.
pub uninterp spec fn path_extension(path: Seq<char>) -> Option<Seq<char>>;

/// The extension of the file that `path` names, as `std::path::Path::extension`
/// finds it on the platform the library is built for: the part of the final
/// component after its last dot, if that component has a dot that is not its
/// first character. The contract only gives this result its name.
#[verifier::external_body]
fn extension(path: &str) -> (found: Option<String>)
    ensures
        match found {
            Some(ext) => path_extension(path@) == Some(ext@),
            None => path_extension(path@) is None,
        },
{
    let ext = std::path::Path::new(path).extension()?;
    Some(ext.to_str()?.to_owned())
}

/// The language of a file, which is its extension.
pub fn get_lang_from_extension(path: &str) -> (lang: Result<String, Error>)
    ensures
        match lang {
            Ok(ext) => path_extension(path@) == Some(ext@),
            Err(e) => {
                &&& path_extension(path@) is None
                &&& e matches Error::MissingExtension { name }
                &&& name@ == path@
            },
        },
{
    match extension(path) {
        Some(ext) => Ok(ext),
        None => Err(Error::MissingExtension { name: String::from_str(path) }),
    }
}

/// The character that writes the digit `d`.
pub open spec fn digit(d: nat) -> char {
    if d == 0 {
        '0'
    } else if d == 1 {
        '1'
    } else if d == 2 {
        '2'
    } else if d == 3 {
        '3'
    } else if d == 4 {
        '4'
    } else if d == 5 {
        '5'
    } else if d == 6 {
        '6'
    } else if d == 7 {
        '7'
    } else if d == 8 {
        '8'
    } else {
        '9'
    }
}

/// The decimal numeral of `n`, without leading zeros.
pub open spec fn decimal(n: nat) -> Seq<char>
    decreases n,
{
    if n < 10 {
        seq![digit(n)]
    } else {
        decimal(n / 10).push(digit(n % 10))
    }
}

/// Numerals of two or more digits belong to the numbers from ten on.
pub proof fn lemma_decimal_len(n: nat)
    ensures
        decimal(n).len() >= 1,
        n >= 10 ==> decimal(n).len() >= 2,
    decreases n,
{
    if n >= 10 {
        lemma_decimal_len(n / 10);
    }
}

/// Different digits are written differently.
pub proof fn lemma_digit_injective(x: nat, y: nat)
    requires
        x < 10,
        y < 10,
        digit(x) == digit(y),
    ensures
        x == y,
{
}

/// Different numbers have different numerals.
pub proof fn lemma_decimal_injective(a: nat, b: nat)
    requires
        decimal(a) == decimal(b),
    ensures
        a == b,
    decreases a,
{
    lemma_decimal_len(a);
    lemma_decimal_len(b);
    if a < 10 {
        assert(decimal(a).len() == 1);
        assert(b < 10);
        assert(decimal(a)[0] == digit(a));
        assert(decimal(b)[0] == digit(b));
        lemma_digit_injective(a, b);
    } else {
        if b < 10 {
            assert(decimal(b).len() == 1);
        }
        assert(b >= 10);
        assert(decimal(a).drop_last() =~= decimal(a / 10));
        assert(decimal(b).drop_last() =~= decimal(b / 10));
        assert(decimal(a).last() == digit(a % 10));
        assert(decimal(b).last() == digit(b % 10));
        lemma_decimal_injective(a / 10, b / 10);
        lemma_digit_injective(a % 10, b % 10);
    }
}

/// The numeral of a single digit.
fn digit_text(d: usize) -> (text: &'static str)
    requires
        d < 10,
    ensures
        text@ == seq![digit(d as nat)],
{
    proof {
        reveal_strlit("0");
        reveal_strlit("1");
        reveal_strlit("2");
        reveal_strlit("3");
        reveal_strlit("4");
        reveal_strlit("5");
        reveal_strlit("6");
        reveal_strlit("7");
        reveal_strlit("8");
        reveal_strlit("9");
    }
    let text = if d == 0 {
        "0"
    } else if d == 1 {
        "1"
    } else if d == 2 {
        "2"
    } else if d == 3 {
        "3"
    } else if d == 4 {
        "4"
    } else if d == 5 {
        "5"
    } else if d == 6 {
        "6"
    } else if d == 7 {
        "7"
    } else if d == 8 {
        "8"
    } else {
        "9"
    };
    assert(text@ =~= seq![digit(d as nat)]);
    text
}

/// Appends the decimal numeral of `n` to `text`.
pub fn push_decimal(text: &mut String, n: usize)
    ensures
        final(text)@ == old(text)@ + decimal(n as nat),
    decreases n,
{
    if n >= 10 {
        push_decimal(text, n / 10);
    }
    text.append(digit_text(n % 10));
    assert(final(text)@ =~= old(text)@ + decimal(n as nat));
}

} // verus!
