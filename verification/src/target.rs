//! Where a session goes and what it sends there: the addresses of the
//! judge's surfaces on each endpoint, the scripts that fill in its forms, and
//! the markers by which the outcome of a step is read off the page.

use vstd::prelude::*;
use vstd::string::StringExecFns;
use crate::outcome::{LoginObservation, Mirror, SubmissionObservation};

verus! {

/// Marks a refused login.
pub const LOGIN_ERROR_MARKER: &'static str = "span.error";

/// Marks the error elements of the submission surface.
pub const SUBMIT_ERROR_MARKER: &'static str = ".error";

/// The switch that turns the source editor off.
pub const EDITOR_TOGGLE: &'static str = "#toggleEditorCheckbox";

/// The button that sends the submission.
pub const SUBMIT_BUTTON: &'static str = "input[value=Submit]";

/// The script that switches the source editor off.
pub const EDITOR_OFF_SCRIPT: &'static str = "$('#toggleEditorCheckbox').prop('checked',false);";

pub open spec fn spec_base_url(mirror: Mirror) -> Seq<char> {
    match mirror {
        Mirror::Main => "https://codeforces.com/"@,
        Mirror::M1 => "https://m1.codeforces.com/"@,
        Mirror::M2 => "https://m2.codeforces.com/"@,
        Mirror::M3 => "https://m3.codeforces.com/"@,
    }
}

pub open spec fn spec_digit(d: int) -> char {
    if d == 0 {
        '0'
    } else if d == 1 {
        '1'
    } else if d == 2 {
        '2'
    } else if d == 3 {
        '3'
    } else if d == 4 {
        '4'
    } else if d == 5 {
        '5'
    } else if d == 6 {
        '6'
    } else if d == 7 {
        '7'
    } else if d == 8 {
        '8'
    } else {
        '9'
    }
}

/// The decimal digits of a natural number, most significant first.
pub open spec fn spec_digits(n: nat) -> Seq<char>
    decreases n,
{
    if n < 10 {
        seq![spec_digit(n as int)]
    } else {
        spec_digits(n / 10).push(spec_digit((n % 10) as int))
    }
}

/// A whole number in decimal, with a minus sign if it is negative.
pub open spec fn spec_decimal(n: int) -> Seq<char> {
    if n < 0 {
        seq!['-'] + spec_digits((-n) as nat)
    } else {
        spec_digits(n as nat)
    }
}

pub open spec fn spec_enter_url(mirror: Mirror) -> Seq<char> {
    spec_base_url(mirror) + "enter"@
}

pub open spec fn spec_submit_url(mirror: Mirror, contest_id: i64) -> Seq<char> {
    spec_base_url(mirror) + "contest/"@ + spec_decimal(contest_id as int) + "/submit"@
}

pub open spec fn spec_my_submissions_url(mirror: Mirror, contest_id: i64) -> Seq<char> {
    spec_base_url(mirror) + "contest/"@ + spec_decimal(contest_id as int) + "/my"@
}

/// The address of the endpoint's home, which is also where an accepted
/// login lands.
pub fn base_url(mirror: Mirror) -> (url: &'static str)
    ensures
        url@ == spec_base_url(mirror),
{
    match mirror {
        Mirror::Main => "https://codeforces.com/",
        Mirror::M1 => "https://m1.codeforces.com/",
        Mirror::M2 => "https://m2.codeforces.com/",
        Mirror::M3 => "https://m3.codeforces.com/",
    }
}

fn digit_text(d: u64) -> (text: &'static str)
    requires
        d < 10,
    ensures
        text@ == seq![spec_digit(d as int)],
{
    proof {
        reveal_strlit("0");
        reveal_strlit("1");
        reveal_strlit("2");
        reveal_strlit("3");
        reveal_strlit("4");
        reveal_strlit("5");
        reveal_strlit("6");
        reveal_strlit("7");
        reveal_strlit("8");
        reveal_strlit("9");
    }
    let text = if d == 0 {
        "0"
    } else if d == 1 {
        "1"
    } else if d == 2 {
        "2"
    } else if d == 3 {
        "3"
    } else if d == 4 {
        "4"
    } else if d == 5 {
        "5"
    } else if d == 6 {
        "6"
    } else if d == 7 {
        "7"
    } else if d == 8 {
        "8"
    } else {
        "9"
    };
    assert(text@ =~= seq![spec_digit(d as int)]);
    text
}

fn append_digits(text: &mut String, n: u64)
    ensures
        final(text)@ == old(text)@ + spec_digits(n as nat),
    decreases n,
{
    if n >= 10 {
        append_digits(text, n / 10);
    }
    let ghost front = text@;
    text.append(digit_text(n % 10));
    proof {
        if n >= 10 {
            assert(text@ =~= old(text)@ + spec_digits((n / 10) as nat).push(
                spec_digit((n % 10) as int),
            ));
        }
    }
}

/// Appends a whole number in decimal.
pub fn append_decimal(text: &mut String, n: i64)
    ensures
        final(text)@ == old(text)@ + spec_decimal(n as int),
{
    if n < 0 {
        proof {
            reveal_strlit("-");
        }
        text.append("-");
        let magnitude: u64 = (-(n + 1)) as u64 + 1;
        append_digits(text, magnitude);
        proof {
            assert("-"@ =~= seq!['-']);
            assert(text@ =~= old(text)@ + (seq!['-'] + spec_digits((-n) as nat)));
        }
    } else {
        append_digits(text, n as u64);
    }
}

/// The address of the login surface.
pub fn enter_url(mirror: Mirror) -> (url: String)
    ensures
        url@ == spec_enter_url(mirror),
{
    let mut url = String::from_str(base_url(mirror));
    url.append("enter");
    url
}

/// The address of the submission surface of a contest.
pub fn submit_url(mirror: Mirror, contest_id: i64) -> (url: String)
    ensures
        url@ == spec_submit_url(mirror, contest_id),
{
    let mut url = String::from_str(base_url(mirror));
    url.append("contest/");
    append_decimal(&mut url, contest_id);
    url.append("/submit");
    url
}

/// The address of the list of own submissions to a contest, which is where
/// an accepted submission lands.
pub fn my_submissions_url(mirror: Mirror, contest_id: i64) -> (url: String)
    ensures
        url@ == spec_my_submissions_url(mirror, contest_id),
{
    let mut url = String::from_str(base_url(mirror));
    url.append("contest/");
    append_decimal(&mut url, contest_id);
    url.append("/my");
    url
}

/// A text as Rust's `Debug` writes it: between double quotes, with what
/// could not stand there as it is written as an escape.
pub uninterp spec fn spec_debug_quoted(text: Seq<char>) -> Seq<char>;

/// Formats `text` with `{:?}`, the `Debug` form of `str` in std. The result
/// depends on the characters of `text` alone; what it is in full is left to
/// std and only named here.
#[verifier::external_body]
fn debug_quoted(text: &str) -> (quoted: String)
    ensures
        quoted@ == spec_debug_quoted(text@),
{
    format!("{:?}", text)
}

pub open spec fn spec_login_script(handle: Seq<char>, password: Seq<char>) -> Seq<char> {
    "$('#handleOrEmail').val('"@ + handle + "');\n            $('#password').val('"@ + password
        + "');\n            $('input#handleOrEmail').closest('form').submit();"@
}

pub open spec fn spec_form_script(problem_index: Seq<char>, program_type_id: i64) -> Seq<char> {
    "$('[name=problemIndex],[name=submittedProblemIndex]').val('"@ + problem_index
        + "');\n            $('[name=programTypeId]').val('"@ + spec_decimal(program_type_id as int)
        + "');"@
}

/// The script that puts a source, given as a quoted text, into the form.
pub open spec fn spec_source_script_of(quoted: Seq<char>) -> Seq<char> {
    "$('[name=source]').val("@ + quoted + ");"@
}

pub open spec fn spec_source_script(source: Seq<char>) -> Seq<char> {
    spec_source_script_of(spec_debug_quoted(source))
}

/// The script that fills in the login form and sends it.
pub fn login_script(handle: &str, password: &str) -> (script: String)
    ensures
        script@ == spec_login_script(handle@, password@),
{
    let mut script = String::from_str("$('#handleOrEmail').val('");
    script.append(handle);
    script.append("');\n            $('#password').val('");
    script.append(password);
    script.append("');\n            $('input#handleOrEmail').closest('form').submit();");
    script
}

/// The script that selects problem and language on the submission form.
pub fn form_script(problem_index: &str, program_type_id: i64) -> (script: String)
    ensures
        script@ == spec_form_script(problem_index@, program_type_id),
{
    let mut script = String::from_str("$('[name=problemIndex],[name=submittedProblemIndex]').val('");
    script.append(problem_index);
    script.append("');\n            $('[name=programTypeId]').val('");
    append_decimal(&mut script, program_type_id);
    script.append("');");
    script
}

/// The script that puts a source into the submission form, given the source
/// as a quoted text: the text stands in the script as it is.
pub fn source_script_of(quoted: &str) -> (script: String)
    ensures
        script@ == spec_source_script_of(quoted@),
{
    let mut script = String::from_str("$('[name=source]').val(");
    script.append(quoted);
    script.append(");");
    script
}

/// The script that puts the source into the submission form. The source is
/// quoted as `Debug` writes a text, and stands in the script in that form.
pub fn source_script(source: &str) -> (script: String)
    ensures
        script@ == spec_source_script(source@),
{
    let quoted = debug_quoted(source);
    source_script_of(quoted.as_str())
}

/// What the login phase sees: whether the session stands at the endpoint's
/// home, and whether the page shows the login's error marker.
pub fn observe_login(mirror: Mirror, location: &String, error_marker: bool) -> (obs:
    LoginObservation)
    ensures
        obs.at_home == (location@ == spec_base_url(mirror)),
        obs.error_marker == error_marker,
{
    let home = String::from_str(base_url(mirror));
    LoginObservation { at_home: *location == home, error_marker }
}

/// What the wait for the result sees: whether the session stands at the list
/// of own submissions, and how many error elements the page shows.
pub fn observe_submission(
    mirror: Mirror,
    contest_id: i64,
    location: &String,
    error_elements: usize,
) -> (obs: SubmissionObservation)
    ensures
        obs.at_my_submissions == (location@ == spec_my_submissions_url(mirror, contest_id)),
        obs.error_elements == error_elements,
{
    let landing = my_submissions_url(mirror, contest_id);
    SubmissionObservation { at_my_submissions: *location == landing, error_elements }
}

} // verus!
