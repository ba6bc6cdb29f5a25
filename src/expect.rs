//! Checks of command outcomes against what the configuration expects, and
//! the decisions taken for a tool that is missing from the search path.
use vstd::prelude::*;

use crate::command::CommandOutput;
use crate::config::{Test, Tool};
use crate::text::{is_trim_of, lemma_trim_unique, str_eq, trim};

verus! {

/// How a test's outcome differed from what was expected.
#[derive(Clone, Debug, PartialEq, Eq)]
pub enum TestFailure {
    Stdout { expected: String, actual: String },
    Stderr { expected: String, actual: String },
    Status { expected: i32, actual: Option<i32> },
}

/// The exit status that a test expects: the one configured, else success.
pub open spec fn expected_status(t: Test) -> i32 {
    match t.status {
        Some(code) => code,
        None => 0,
    }
}

/// The outcome meets every expectation of the test: the trimmed standard
/// output and standard error equal the expected texts, where given, and
/// the exit status is the expected one.
pub open spec fn meets(t: Test, o: CommandOutput) -> bool {
    &&& (t.stdout matches Some(e) ==> is_trim_of(e@, o.stdout@))
    &&& (t.stderr matches Some(e) ==> is_trim_of(e@, o.stderr@))
    &&& o.status == Some(expected_status(t))
}

/// Checks the outcome of a test's command, in the order standard output,
/// standard error, exit status, and reports the first difference with the
/// trimmed text that was found.
pub fn check_test(test: &Test, output: &CommandOutput) -> (r: Result<(), TestFailure>)
    ensures
        r is Ok <==> meets(*test, *output),
        r matches Err(TestFailure::Stdout { expected, actual }) ==> test.stdout == Some(expected)
            && !is_trim_of(expected@, output.stdout@) && is_trim_of(actual@, output.stdout@),
        r matches Err(TestFailure::Stderr { expected, actual }) ==> test.stderr == Some(expected)
            && !is_trim_of(expected@, output.stderr@) && is_trim_of(actual@, output.stderr@) && (
        test.stdout matches Some(e) ==> is_trim_of(e@, output.stdout@)),
        r matches Err(TestFailure::Status { expected, actual }) ==> expected == expected_status(
            *test,
        ) && actual == output.status && actual != Some(expected) && (test.stdout matches Some(e)
            ==> is_trim_of(e@, output.stdout@)) && (test.stderr matches Some(e) ==> is_trim_of(
            e@,
            output.stderr@,
        )),
{
    match &test.stdout {
        Some(expected) => {
            let actual = trim(output.stdout.as_str());
            if !str_eq(actual, expected.as_str()) {
                proof {
                    if is_trim_of(expected@, output.stdout@) {
                        lemma_trim_unique(expected@, actual@, output.stdout@);
                    }
                }
                return Err(TestFailure::Stdout { expected: expected.clone(), actual: actual.to_owned() });
            }
        },
        None => {},
    }
    match &test.stderr {
        Some(expected) => {
            let actual = trim(output.stderr.as_str());
            if !str_eq(actual, expected.as_str()) {
                proof {
                    if is_trim_of(expected@, output.stderr@) {
                        lemma_trim_unique(expected@, actual@, output.stderr@);
                    }
                }
                return Err(TestFailure::Stderr { expected: expected.clone(), actual: actual.to_owned() });
            }
        },
        None => {},
    }
    let expected: i32 = match test.status {
        Some(code) => code,
        None => 0,
    };
    let matched = match output.status {
        Some(code) => code == expected,
        None => false,
    };
    if !matched {
        return Err(TestFailure::Status { expected, actual: output.status });
    }
    Ok(())
}

/// A missing tool without a download URL must be installed by hand.
pub fn needs_manual_install(tool: &Tool) -> (r: bool)
    ensures
        r == match tool.url {
            Some(u) => u@.len() == 0,
            None => true,
        },
{
    match &tool.url {
        Some(u) => u.as_str().unicode_len() == 0,
        None => true,
    }
}

/// The ASCII letter in lower case; any other character as it is.
pub open spec fn lower(c: char) -> char {
    if 'A' <= c && c <= 'Z' {
        ((c as u8) + 32) as char
    } else {
        c
    }
}

/// An answer to the download prompt accepts: once trimmed it is empty,
/// `y` or `yes`, in any case.
pub open spec fn accepts(answer: Seq<char>) -> bool {
    exists|t: Seq<char>|
        #![trigger is_trim_of(t, answer)]
        is_trim_of(t, answer) && {
            ||| t.len() == 0
            ||| t.len() == 1 && lower(t[0]) == 'y'
            ||| t.len() == 3 && lower(t[0]) == 'y' && lower(t[1]) == 'e' && lower(t[2]) == 's'
        }
}

fn lower_char(c: char) -> (r: char)
    ensures
        r == lower(c),
{
    if 'A' <= c && c <= 'Z' {
        ((c as u8) + 32) as char
    } else {
        c
    }
}

/// Whether an answer to the download prompt accepts the download.
pub fn wants_download(answer: &str) -> (r: bool)
    ensures
        r == accepts(answer@),
{
    let t = trim(answer);
    let n = t.unicode_len();
    let r = if n == 0 {
        true
    } else if n == 1 {
        lower_char(t.get_char(0)) == 'y'
    } else if n == 3 {
        lower_char(t.get_char(0)) == 'y' && lower_char(t.get_char(1)) == 'e' && lower_char(
            t.get_char(2),
        ) == 's'
    } else {
        false
    };
    proof {
        if accepts(answer@) {
            let u = choose|u: Seq<char>|
                #![trigger is_trim_of(u, answer@)]
                is_trim_of(u, answer@) && {
                    ||| u.len() == 0
                    ||| u.len() == 1 && lower(u[0]) == 'y'
                    ||| u.len() == 3 && lower(u[0]) == 'y' && lower(u[1]) == 'e' && lower(u[2])
                        == 's'
                };
            lemma_trim_unique(u, t@, answer@);
        }
        if r {
            assert(is_trim_of(t@, answer@));
        }
    }
    r
}

} // verus!
