use vstd::prelude::*;

use crate::config::Password;
use crate::error::PwvltError;

verus! {

/// Relies on `str`'s `PartialEq`: two string slices are equal exactly
/// when their character sequences are.
#[verifier::external_body]
pub(crate) fn str_eq(a: &str, b: &str) -> (r: bool)
    ensures
        r == (a@ == b@),
{
    a == b
}

/// An ASCII decimal digit.
pub open spec fn is_digit_char(c: char) -> bool {
    '0' <= c && c <= '9'
}

/// An ASCII lowercase letter.
pub open spec fn is_lowercase_char(c: char) -> bool {
    'a' <= c && c <= 'z'
}

/// An ASCII uppercase letter.
pub open spec fn is_uppercase_char(c: char) -> bool {
    'A' <= c && c <= 'Z'
}

/// An ASCII punctuation character: the symbol class of the generator.
pub open spec fn is_symbol_char(c: char) -> bool {
    ('!' <= c && c <= '/') || (':' <= c && c <= '@') || ('[' <= c && c <= '`') || ('{' <= c
        && c <= '~')
}

/// How many character classes the policy enables.
pub open spec fn class_count(p: Password) -> int {
    (if p.numbers {
        1int
    } else {
        0int
    }) + (if p.lowercase_letters {
        1int
    } else {
        0int
    }) + (if p.uppercase_letters {
        1int
    } else {
        0int
    }) + (if p.symbols {
        1int
    } else {
        0int
    })
}

/// A policy can be satisfied: the length is positive, some class is
/// enabled, and under `strict` the length has room for one character
/// of every enabled class.
pub open spec fn policy_valid(p: Password) -> bool {
    &&& p.length > 0
    &&& class_count(p) > 0
    &&& (p.strict ==> p.length >= class_count(p))
}

/// The character may appear in a password generated under the policy.
pub open spec fn char_allowed(p: Password, c: char) -> bool {
    ||| (p.numbers && is_digit_char(c))
    ||| (p.lowercase_letters && is_lowercase_char(c))
    ||| (p.uppercase_letters && is_uppercase_char(c))
    ||| (p.symbols && is_symbol_char(c))
}

/// The password satisfies the policy: exact length, only characters of
/// enabled classes, and under `strict` at least one character of every
/// enabled class.
pub open spec fn satisfies_policy(p: Password, s: Seq<char>) -> bool {
    &&& s.len() == p.length
    &&& (forall|i: int| 0 <= i < s.len() ==> char_allowed(p, #[trigger] s[i]))
    &&& (p.strict ==> {
        &&& (p.numbers ==> exists|i: int| 0 <= i < s.len() && is_digit_char(#[trigger] s[i]))
        &&& (p.lowercase_letters ==> exists|i: int|
            0 <= i < s.len() && is_lowercase_char(#[trigger] s[i]))
        &&& (p.uppercase_letters ==> exists|i: int|
            0 <= i < s.len() && is_uppercase_char(#[trigger] s[i]))
        &&& (p.symbols ==> exists|i: int| 0 <= i < s.len() && is_symbol_char(#[trigger] s[i]))
    })
}

/// Relies on `passwords::PasswordGenerator::generate_one`: the result
/// has exactly the requested length and draws only on the enabled
/// character classes; under `strict` every enabled class is
/// represented; generation fails exactly when the policy cannot be
/// satisfied, with the generator's report as the error.
#[verifier::external_body]
fn generate_one(p: &Password) -> (r: Result<String, String>)
    ensures
        r is Ok <==> policy_valid(*p),
        r matches Ok(s) ==> satisfies_policy(*p, s@),
{
    let generator = passwords::PasswordGenerator {
        length: p.length,
        numbers: p.numbers,
        lowercase_letters: p.lowercase_letters,
        uppercase_letters: p.uppercase_letters,
        symbols: p.symbols,
        spaces: false,
        exclude_similar_characters: false,
        strict: p.strict,
    };
    generator.generate_one().map(|s| s).map_err(|e| e.to_string())
}

/// For the policy that asks for exactly twelve characters drawn from
/// digits and lowercase letters, with every enabled class required:
/// any password satisfying it has length twelve, consists of digits
/// and lowercase letters alone, and contains at least one of each.
pub proof fn lemma_strict_digits_lowercase(p: Password, s: Seq<char>)
    requires
        p == (Password {
            length: 12,
            numbers: true,
            lowercase_letters: true,
            uppercase_letters: false,
            symbols: false,
            strict: true,
        }),
        satisfies_policy(p, s),
    ensures
        s.len() == 12,
        forall|i: int| 0 <= i < s.len() ==> is_digit_char(#[trigger] s[i]) || is_lowercase_char(
            s[i],
        ),
        exists|i: int| 0 <= i < s.len() && is_digit_char(#[trigger] s[i]),
        exists|i: int| 0 <= i < s.len() && is_lowercase_char(#[trigger] s[i]),
{
}

/// Produce one random password under the policy.  Succeeds exactly on
/// satisfiable policies; the result then satisfies the policy.
pub fn random_password(config: &Password) -> (r: Result<String, PwvltError>)
    ensures
        r is Ok <==> policy_valid(*config),
        r matches Ok(s) ==> satisfies_policy(*config, s@),
        r matches Err(e) ==> e is PasswordGeneration,
{
    match generate_one(config) {
        Ok(s) => Ok(s),
        Err(m) => Err(PwvltError::PasswordGeneration(m)),
    }
}

} // verus!
