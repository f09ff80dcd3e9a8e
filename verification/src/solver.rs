//! Submitting a form: the coefficient texts go to the equation solver, and what
//! it narrates becomes the text of the result screen.

use vstd::prelude::*;
use vstd::string::StringExecFns;
use matematika_rs::sistem::aljabar::SistemPersamaan;

verus! {

/// Whether `str::parse` reads the text as a double-precision number.
pub uninterp spec fn reads_as_number(text: Seq<char>) -> bool;

/// What `SistemPersamaan::splsv_proses` returns for `a x + b = 0`, the two
/// coefficients given as texts that read as numbers: the root written with two
/// decimals, if the solver finds one, and the narrated steps.
pub uninterp spec fn splsv_proses(a: Seq<char>, b: Seq<char>) -> (Option<Seq<char>>, Seq<char>);

/// What `SistemPersamaan::spldv_proses` returns for `a1 x + b1 y = c1`,
/// `a2 x + b2 y = c2`, the six coefficients given as texts that read as numbers:
/// `x` and `y` written with two decimals, if the solver finds them, and the
/// narrated steps.
pub uninterp spec fn spldv_proses(
    a1: Seq<char>,
    b1: Seq<char>,
    c1: Seq<char>,
    a2: Seq<char>,
    b2: Seq<char>,
    c2: Seq<char>,
) -> (Option<(Seq<char>, Seq<char>)>, Seq<char>);

/// The characters of a one-variable outcome.
pub open spec fn one_var_view(outcome: Option<(Option<String>, String)>) -> Option<
    (Option<Seq<char>>, Seq<char>),
> {
    match outcome {
        None => None,
        Some((None, steps)) => Some((None, steps@)),
        Some((Some(x), steps)) => Some((Some(x@), steps@)),
    }
}

/// The characters of a two-variable outcome.
pub open spec fn two_var_view(outcome: Option<(Option<(String, String)>, String)>) -> Option<
    (Option<(Seq<char>, Seq<char>)>, Seq<char>),
> {
    match outcome {
        None => None,
        Some((None, steps)) => Some((None, steps@)),
        Some((Some((x, y)), steps)) => Some((Some((x@, y@)), steps@)),
    }
}

/// Reads both texts with `str::parse` and hands the numbers to
/// `SistemPersamaan::splsv_proses`. The result is `None` exactly when a text
/// does not read as a number; otherwise it is what the solver returned, its
/// root written with two decimals.
#[verifier::external_body]
fn narrate_splsv(a: &str, b: &str) -> (outcome: Option<(Option<String>, String)>)
    ensures
        outcome.is_some() == (reads_as_number(a@) && reads_as_number(b@)),
        outcome.is_some() ==> one_var_view(outcome) == Some(splsv_proses(a@, b@)),
{
    match (a.parse(), b.parse()) {
        (Ok(a), Ok(b)) => match SistemPersamaan::splsv_proses(a, b) {
            (Some(x), steps) => Some((Some(format!("{:.2}", x)), steps)),
            (None, steps) => Some((None, steps)),
        },
        _ => None,
    }
}

/// Reads the six texts with `str::parse` and hands the numbers to
/// `SistemPersamaan::spldv_proses`. The result is `None` exactly when a text
/// does not read as a number; otherwise it is what the solver returned, `x` and
/// `y` written with two decimals.
#[verifier::external_body]
fn narrate_spldv(a1: &str, b1: &str, c1: &str, a2: &str, b2: &str, c2: &str) -> (outcome: Option<
    (Option<(String, String)>, String),
>)
    ensures
        outcome.is_some() == (reads_as_number(a1@) && reads_as_number(b1@) && reads_as_number(c1@)
            && reads_as_number(a2@) && reads_as_number(b2@) && reads_as_number(c2@)),
        outcome.is_some() ==> two_var_view(outcome) == Some(
            spldv_proses(a1@, b1@, c1@, a2@, b2@, c2@),
        ),
{
    match (a1.parse(), b1.parse(), c1.parse(), a2.parse(), b2.parse(), c2.parse()) {
        (Ok(a1), Ok(b1), Ok(c1), Ok(a2), Ok(b2), Ok(c2)) => {
            match SistemPersamaan::spldv_proses(a1, b1, c1, a2, b2, c2) {
                (Some((x, y)), steps) => {
                    Some((Some((format!("{:.2}", x), format!("{:.2}", y))), steps))
                },
                (None, steps) => Some((None, steps)),
            }
        },
        _ => None,
    }
}

/// The text shown when a field of a submitted form does not read as a number.
pub open spec fn invalid_input_text() -> Seq<char> {
    "Input tidak valid"@
}

/// The result screen's text for a one-variable outcome: the fixed message when
/// there is no outcome, else the steps followed by the root or by the notice
/// that there is none.
pub open spec fn splsv_report(outcome: Option<(Option<Seq<char>>, Seq<char>)>) -> Seq<char> {
    match outcome {
        None => invalid_input_text(),
        Some((None, steps)) => steps + "\n\nTidak ada solusi"@,
        Some((Some(x), steps)) => steps + "\n\nHasil:\n  x = "@ + x,
    }
}

/// The result screen's text for a two-variable outcome.
pub open spec fn spldv_report(
    outcome: Option<(Option<(Seq<char>, Seq<char>)>, Seq<char>)>,
) -> Seq<char> {
    match outcome {
        None => invalid_input_text(),
        Some((None, steps)) => steps + "\n\nTidak ada solusi"@,
        Some((Some((x, y)), steps)) => steps + "\n\nHasil:\n  x = "@ + x + ", y = "@ + y,
    }
}

/// What submitting the one-variable form with these two field texts shows.
pub open spec fn splsv_screen_text(a: Seq<char>, b: Seq<char>) -> Seq<char> {
    if reads_as_number(a) && reads_as_number(b) {
        splsv_report(Some(splsv_proses(a, b)))
    } else {
        invalid_input_text()
    }
}

/// What submitting the two-variable form with these six field texts shows.
pub open spec fn spldv_screen_text(
    a1: Seq<char>,
    b1: Seq<char>,
    c1: Seq<char>,
    a2: Seq<char>,
    b2: Seq<char>,
    c2: Seq<char>,
) -> Seq<char> {
    if reads_as_number(a1) && reads_as_number(b1) && reads_as_number(c1) && reads_as_number(a2)
        && reads_as_number(b2) && reads_as_number(c2) {
        spldv_report(Some(spldv_proses(a1, b1, c1, a2, b2, c2)))
    } else {
        invalid_input_text()
    }
}

/// Lays out the result screen's text for a one-variable outcome.
pub fn splsv_result(outcome: Option<(Option<String>, String)>) -> (text: String)
    ensures
        text@ == splsv_report(one_var_view(outcome)),
{
    match outcome {
        None => "Input tidak valid".to_owned(),
        Some((None, steps)) => steps.concat("\n\nTidak ada solusi"),
        Some((Some(x), steps)) => steps.concat("\n\nHasil:\n  x = ").concat(x.as_str()),
    }
}

/// Lays out the result screen's text for a two-variable outcome.
pub fn spldv_result(outcome: Option<(Option<(String, String)>, String)>) -> (text: String)
    ensures
        text@ == spldv_report(two_var_view(outcome)),
{
    match outcome {
        None => "Input tidak valid".to_owned(),
        Some((None, steps)) => steps.concat("\n\nTidak ada solusi"),
        Some((Some((x, y)), steps)) => steps.concat("\n\nHasil:\n  x = ").concat(
            x.as_str(),
        ).concat(", y = ").concat(y.as_str()),
    }
}

/// Submits the one-variable form: solves `a x + b = 0` for the two field texts
/// and returns the result screen's text.
pub fn submit_splsv(a: &str, b: &str) -> (text: String)
    ensures
        text@ == splsv_screen_text(a@, b@),
{
    splsv_result(narrate_splsv(a, b))
}

/// Submits the two-variable form: solves the system for the six field texts and
/// returns the result screen's text.
pub fn submit_spldv(a1: &str, b1: &str, c1: &str, a2: &str, b2: &str, c2: &str) -> (text: String)
    ensures
        text@ == spldv_screen_text(a1@, b1@, c1@, a2@, b2@, c2@),
{
    spldv_result(narrate_spldv(a1, b1, c1, a2, b2, c2))
}

} // verus!
