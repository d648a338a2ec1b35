//! The two path lookups offered to the front-end: the user's home directory
//! and the default scripts directory below it.

use vstd::prelude::*;
use vstd::string::StringExecFns;

verus! {

/// Specification of `String::push`: the character is appended at the end.
pub assume_specification[ String::push ](s: &mut String, ch: char)
    ensures
        final(s)@ == old(s)@.push(ch),
;

/// Calls `dirs::home_dir` and turns the path into text, replacing what is
/// not valid Unicode. The answer depends on the user's environment, so
/// nothing is claimed of it.
#[verifier::external_body]
fn query_home_dir() -> (home: Option<String>) {
    dirs::home_dir().map(|p| p.to_string_lossy().to_string())
}

/// Reads `std::path::MAIN_SEPARATOR`, the platform's separator of path
/// components. Which character that is depends on the platform, so nothing
/// is claimed of it.
#[verifier::external_body]
fn platform_separator() -> (separator: char) {
    std::path::MAIN_SEPARATOR
}

/// The message given when the home directory cannot be determined.
pub open spec fn home_error() -> Seq<char> {
    "Could not determine home directory"@
}

/// Name of the scripts directory inside the home directory.
pub open spec fn scripts_dir_name() -> Seq<char> {
    "scripts"@
}

/// What the home directory lookup answers, given the home directory where
/// the system knows one.
pub open spec fn home_dir_answer(home: Option<Seq<char>>) -> Result<Seq<char>, Seq<char>> {
    match home {
        Some(h) => Ok(h),
        None => Err(home_error()),
    }
}

/// What the scripts path lookup answers, given the home directory where the
/// system knows one.
pub open spec fn scripts_path_answer(home: Option<Seq<char>>, separator: char) -> Result<
    Seq<char>,
    Seq<char>,
> {
    match home {
        Some(h) => Ok(h.push(separator) + scripts_dir_name()),
        None => Err(home_error()),
    }
}

/// The text views of an optional string.
pub open spec fn option_text(s: Option<String>) -> Option<Seq<char>> {
    match s {
        Some(t) => Some(t@),
        None => None,
    }
}

/// The text views of both sides of a result.
pub open spec fn result_text(r: Result<String, String>) -> Result<Seq<char>, Seq<char>> {
    match r {
        Ok(t) => Ok(t@),
        Err(e) => Err(e@),
    }
}

fn home_error_message() -> (message: String)
    ensures
        message@ == home_error(),
{
    String::from_str("Could not determine home directory")
}

/// Answers the home directory lookup from what the system reported: the
/// directory itself, or the error message where there is none.
pub fn home_dir_result(home: Option<String>) -> (answer: Result<String, String>)
    ensures
        result_text(answer) == home_dir_answer(option_text(home)),
{
    match home {
        Some(h) => Ok(h),
        None => Err(home_error_message()),
    }
}

/// Answers the scripts path lookup from what the system reported: the home
/// directory, the separator and `scripts`, or the error message where there
/// is no home directory.
pub fn scripts_path_result(home: Option<String>, separator: char) -> (answer: Result<String, String>)
    ensures
        result_text(answer) == scripts_path_answer(option_text(home), separator),
{
    match home {
        Some(h) => {
            let mut path = h;
            path.push(separator);
            path.append("scripts");
            Ok(path)
        },
        None => Err(home_error_message()),
    }
}

/// The user's home directory as text, or the error message if the system
/// cannot tell it.
pub fn get_home_dir() -> (answer: Result<String, String>)
    ensures
        answer matches Err(e) ==> e@ == home_error(),
{
    home_dir_result(query_home_dir())
}

/// The default scripts directory, `scripts` inside the user's home
/// directory, or the error message if the system cannot tell the home
/// directory.
pub fn get_default_scripts_path() -> (answer: Result<String, String>)
    ensures
        exists|home: Option<Seq<char>>, separator: char|
            result_text(answer) == scripts_path_answer(home, separator),
        answer matches Err(e) ==> e@ == home_error(),
{
    let home = query_home_dir();
    let separator = platform_separator();
    let answer = scripts_path_result(home, separator);
    assert(result_text(answer) == scripts_path_answer(option_text(home), separator));
    answer
}

/// The scripts path lookup answers exactly what the home directory lookup
/// answers for the same home directory, followed by the separator and
/// `scripts`; where the one fails, the other fails with the same message.
pub proof fn scripts_path_extends_home_dir(home: Option<Seq<char>>, separator: char)
    ensures
        scripts_path_answer(home, separator) == match home_dir_answer(home) {
            Ok(dir) => Ok::<Seq<char>, Seq<char>>(dir + seq![separator] + scripts_dir_name()),
            Err(message) => Err(message),
        },
{
    if let Some(h) = home {
        assert(h.push(separator) =~= h + seq![separator]);
    }
}

} // verus!
