//! Turns the outcome of parsing a document into a validated `Config` or a
//! `ConfigError`.

use vstd::prelude::*;
use crate::config_loader::Config;
use crate::error::ConfigError;
use crate::validate::{config_valid, reports_violation, validate_config};

verus! {

/// `serde_yaml::Error`: why the text could not be read as a document.
#[verifier::external_type_specification]
#[verifier::external_body]
pub struct ExYamlError(serde_yaml::Error);

/// Relies on the `Display` impl of `serde_yaml::Error`: the error's message,
/// with the path and position where the parser gives them.
#[verifier::external_body]
fn error_message(e: &serde_yaml::Error) -> String {
    e.to_string()
}

/// Relies on `serde_yaml::Error::location`, with `Location::line` and
/// `Location::column`: where in the text the error arose, if the parser says.
#[verifier::external_body]
fn error_location(e: &serde_yaml::Error) -> Option<(usize, usize)> {
    e.location().map(|l| (l.line(), l.column()))
}

/// `p` stands in `m` from position `i` on.
pub open spec fn occurs_at(m: Seq<char>, p: Seq<char>, i: int) -> bool {
    0 <= i && i + p.len() <= m.len() && m.subrange(i, i + p.len()) == p
}

/// `p` stands somewhere in `m`.
pub open spec fn occurs_in(m: Seq<char>, p: Seq<char>) -> bool {
    exists|i: int| occurs_at(m, p, i)
}

/// The words with which the parser reports an absent field.
pub open spec fn missing_field_words() -> Seq<char> {
    seq!['m', 'i', 's', 's', 'i', 'n', 'g', ' ', 'f', 'i', 'e', 'l', 'd', ' ']
}

fn occurs_at_exec(m: &str, p: &str, i: usize) -> (r: bool)
    requires
        i + p@.len() <= m@.len(),
    ensures
        r == occurs_at(m@, p@, i as int),
{
    let n = m.unicode_len();
    let k = p.unicode_len();
    let mut t: usize = 0;
    while t < k
        invariant
            n == m@.len(),
            k == p@.len(),
            i + k <= m@.len(),
            0 <= t <= k,
            forall|u: int| 0 <= u < t ==> m@[i + u] == #[trigger] p@[u],
        decreases k - t,
    {
        if m.get_char(i + t) != p.get_char(t) {
            assert(m@.subrange(i as int, i + k)[t as int] != p@[t as int]);
            return false;
        }
        t = t + 1;
    }
    assert(m@.subrange(i as int, i + k) =~= p@);
    true
}

fn occurs_in_exec(m: &str, p: &str) -> (r: bool)
    ensures
        r == occurs_in(m@, p@),
{
    let n = m.unicode_len();
    let k = p.unicode_len();
    if n < k {
        return false;
    }
    let mut i: usize = 0;
    while i <= n - k
        invariant
            n == m@.len(),
            k == p@.len(),
            k <= n,
            0 <= i <= n - k,
            forall|j: int| 0 <= j < i ==> !#[trigger] occurs_at(m@, p@, j),
        decreases n - k - i,
    {
        if occurs_at_exec(m, p, i) {
            return true;
        }
        if i == n - k {
            return false;
        }
        i = i + 1;
    }
    false
}

/// Sorts a parser error into the taxonomy: an absent field is
/// `MissingRequiredField`, anything else a `SyntaxError`.
pub fn classify_parse_error(message: String, location: Option<(usize, usize)>) -> (r: ConfigError)
    ensures
        occurs_in(message@, missing_field_words()) ==> r == (ConfigError::MissingRequiredField {
            message,
            location,
        }),
        !occurs_in(message@, missing_field_words()) ==> r == (ConfigError::SyntaxError {
            message,
            location,
        }),
{
    let words = "missing field ";
    proof {
        reveal_strlit("missing field ");
    }
    assert(words@ =~= missing_field_words());
    if occurs_in_exec(message.as_str(), words) {
        ConfigError::MissingRequiredField { message, location }
    } else {
        ConfigError::SyntaxError { message, location }
    }
}

/// Finishes a load: a parser error is reported as such; a parsed document
/// is returned only if it passes `validate_config`, else its first violation.
pub fn load_parsed(parsed: Result<Config, serde_yaml::Error>) -> (r: Result<Config, ConfigError>)
    ensures
        parsed is Ok ==> (r is Ok <==> config_valid(parsed->Ok_0)),
        parsed is Ok && r is Ok ==> r->Ok_0 == parsed->Ok_0,
        parsed is Ok && r is Err ==> reports_violation(parsed->Ok_0, r->Err_0),
        parsed is Err ==> r is Err && (r->Err_0 is SyntaxError || r->Err_0 is MissingRequiredField),
{
    match parsed {
        Err(e) => Err(classify_parse_error(error_message(&e), error_location(&e))),
        Ok(c) => match validate_config(&c) {
            Ok(()) => Ok(c),
            Err(e) => Err(e),
        },
    }
}

} // verus!
