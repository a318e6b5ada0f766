//! Choices offered by the interactive menu.

use vstd::prelude::*;

verus! {

/// The decimal digit `d` as a character.
pub open spec fn digit_char(d: int) -> char {
    (('0' as int) + d) as char
}

/// `tenths / 10` written with one decimal place, for `tenths` below 100.
pub open spec fn tenths_label(tenths: int) -> Seq<char> {
    seq![digit_char(tenths / 10), '.', digit_char(tenths % 10)]
}

/// The speeds offered in the menu, from 1.0 up to 2.5 in steps of 0.1.
pub fn speed_options() -> (r: Vec<&'static str>)
    ensures
        r@.len() == 16,
        forall|i: int| 0 <= i < 16 ==> (#[trigger] r@[i])@ == tenths_label(10 + i),
{
    proof {
        reveal_strlit("1.0");
        reveal_strlit("1.1");
        reveal_strlit("1.2");
        reveal_strlit("1.3");
        reveal_strlit("1.4");
        reveal_strlit("1.5");
        reveal_strlit("1.6");
        reveal_strlit("1.7");
        reveal_strlit("1.8");
        reveal_strlit("1.9");
        reveal_strlit("2.0");
        reveal_strlit("2.1");
        reveal_strlit("2.2");
        reveal_strlit("2.3");
        reveal_strlit("2.4");
        reveal_strlit("2.5");
    }
    let r = vec![
        "1.0", "1.1", "1.2", "1.3", "1.4", "1.5", "1.6", "1.7", "1.8", "1.9", "2.0", "2.1", "2.2",
        "2.3", "2.4", "2.5",
    ];
    assert forall|i: int| 0 <= i < 16 implies (#[trigger] r@[i])@ =~= tenths_label(10 + i) by {
        if i == 0 {
        } else if i == 1 {
        } else if i == 2 {
        } else if i == 3 {
        } else if i == 4 {
        } else if i == 5 {
        } else if i == 6 {
        } else if i == 7 {
        } else if i == 8 {
        } else if i == 9 {
        } else if i == 10 {
        } else if i == 11 {
        } else if i == 12 {
        } else if i == 13 {
        } else if i == 14 {
        } else {
        }
    }
    r
}

/// Whether `needle` occurs in `haystack` as a contiguous run.
pub open spec fn contains_run(haystack: Seq<char>, needle: Seq<char>) -> bool {
    exists|i: int|
        0 <= i && i + needle.len() <= haystack.len() && #[trigger] haystack.subrange(
            i,
            i + needle.len(),
        ) == needle
}

/// The character with ASCII upper-case letters mapped to lower case.
pub open spec fn ascii_lower(c: char) -> char {
    if 'A' <= c && c <= 'Z' {
        ((c as u32) + 32) as char
    } else {
        c
    }
}

/// Whether two texts are equal once ASCII letters are folded to lower case.
pub open spec fn eq_ignoring_ascii_case(a: Seq<char>, b: Seq<char>) -> bool {
    &&& a.len() == b.len()
    &&& forall|i: int| 0 <= i < a.len() ==> ascii_lower(#[trigger] a[i]) == ascii_lower(b[i])
}

/// Relies on `str::contains` with a `&str` pattern: whether the pattern
/// occurs in the text.
#[verifier::external_body]
fn str_contains(haystack: &str, needle: &str) -> (r: bool)
    ensures
        r == contains_run(haystack@, needle@),
{
    haystack.contains(needle)
}

/// Relies on `str::eq_ignore_ascii_case`: equality with ASCII letters
/// compared without regard to case.
#[verifier::external_body]
fn str_eq_ignore_ascii_case(a: &str, b: &str) -> (r: bool)
    ensures
        r == eq_ignoring_ascii_case(a@, b@),
{
    a.eq_ignore_ascii_case(b)
}

/// Whether a file of the working directory is offered as the game's
/// executable: its extension is `exe` in any case, and its name does not
/// contain this program's name.
pub fn is_exec_option(file_name: &str, extension: Option<&str>, own_name: &str) -> (r: bool)
    ensures
        r == (!contains_run(file_name@, own_name@) && match extension {
            Some(ext) => eq_ignoring_ascii_case(ext@, "exe"@),
            None => false,
        }),
{
    if str_contains(file_name, own_name) {
        return false;
    }
    match extension {
        Some(ext) => str_eq_ignore_ascii_case(ext, "exe"),
        None => false,
    }
}

} // verus!
