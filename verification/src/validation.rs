//! Syntax rules for operator-typed protocol identifiers: a port, channel,
//! connection or client name must be non-empty, free of the path separator,
//! within given length bounds, and made of permitted characters only.

use vstd::prelude::*;
use vstd::string::*;

verus! {

/// Why an identifier was rejected.
#[derive(Clone, Copy, Debug, PartialEq, Eq, Structural)]
pub enum ValidationError {
    /// The identifier has zero length.
    Empty,
    /// The identifier contains the path separator `/`.
    ContainsSeparator,
    /// The identifier's length lies outside the inclusive bounds.
    InvalidLength { length: usize, min: usize, max: usize },
    /// A character is neither alphanumeric nor in the permitted special set.
    InvalidCharacter,
}

/// Whether a character counts as alphanumeric for identifier purposes
/// (Unicode letter or number, as `char::is_alphanumeric` decides it).
pub uninterp spec fn unicode_alphanumeric(c: char) -> bool;

/// The fixed set of permitted non-alphanumeric characters.
pub open spec fn is_special_char(c: char) -> bool {
    c == '.' || c == '_' || c == '+' || c == '-' || c == '#' || c == '[' || c == ']' || c == '<'
        || c == '>'
}

/// A character an identifier may contain.
pub open spec fn is_valid_char(c: char) -> bool {
    unicode_alphanumeric(c) || is_special_char(c)
}

/// Every character of `s` is permitted.
pub open spec fn all_chars_valid(s: Seq<char>) -> bool {
    forall|i: int| 0 <= i < s.len() ==> is_valid_char(#[trigger] s[i])
}

/// `s` contains the path separator.
pub open spec fn has_separator(s: Seq<char>) -> bool {
    exists|i: int| 0 <= i < s.len() && s[i] == '/'
}

/// The validator's full outcome: the checks run in a fixed order (emptiness,
/// separator, length, character set) and the first violated rule names the
/// error.
pub open spec fn spec_validate(s: Seq<char>, min: usize, max: usize) -> Result<
    (),
    ValidationError,
> {
    if s.len() == 0 {
        Err(ValidationError::Empty)
    } else if has_separator(s) {
        Err(ValidationError::ContainsSeparator)
    } else if s.len() < min || s.len() > max {
        Err(ValidationError::InvalidLength { length: s.len() as usize, min, max })
    } else if !all_chars_valid(s) {
        Err(ValidationError::InvalidCharacter)
    } else {
        Ok(())
    }
}

/// Relies on `char::is_alphanumeric` from std: true exactly of characters in
/// a Unicode letter or number category; on the ASCII range that is the digits
/// and the letters.
#[verifier::external_body]
fn char_is_alphanumeric(c: char) -> (r: bool)
    ensures
        r == unicode_alphanumeric(c),
        (c as u32) < 128 ==> r == (48 <= c as u32 <= 57 || 65 <= c as u32 <= 90 || 97 <= c as u32
            <= 122),
{
    c.is_alphanumeric()
}

/// Checks an identifier against the syntax rules with inclusive length
/// bounds, reporting the first violated rule.
pub fn validate_identifier(id: &str, min: usize, max: usize) -> (r: Result<(), ValidationError>)
    requires
        min <= max,
    ensures
        r == spec_validate(id@, min, max),
{
    let len = id.unicode_len();
    if len == 0 {
        return Err(ValidationError::Empty);
    }
    let mut i: usize = 0;
    while i < len
        invariant
            len == id@.len(),
            i <= len,
            forall|j: int| 0 <= j < i ==> (#[trigger] id@[j]) != '/',
        decreases len - i,
    {
        if id.get_char(i) == '/' {
            assert(has_separator(id@));
            return Err(ValidationError::ContainsSeparator);
        }
        i += 1;
    }
    assert(!has_separator(id@));
    if len < min || len > max {
        return Err(ValidationError::InvalidLength { length: len, min, max });
    }
    let mut i: usize = 0;
    while i < len
        invariant
            len == id@.len(),
            i <= len,
            min <= len <= max,
            !has_separator(id@),
            forall|j: int| 0 <= j < i ==> is_valid_char(#[trigger] id@[j]),
        decreases len - i,
    {
        let c = id.get_char(i);
        let alnum = char_is_alphanumeric(c);
        let special = c == '.' || c == '_' || c == '+' || c == '-' || c == '#' || c == '[' || c
            == ']' || c == '<' || c == '>';
        if !(alnum || special) {
            assert(!all_chars_valid(id@));
            return Err(ValidationError::InvalidCharacter);
        }
        i += 1;
    }
    Ok(())
}

/// Checks a channel identifier, which uses the length bounds 10 to 64, and
/// hands the identifier back on success.
pub fn validate_channel_identifier(id: &str) -> (r: Result<&str, ValidationError>)
    ensures
        match r {
            Ok(s) => s@ == id@ && spec_validate(id@, 10, 64) == Ok::<(), ValidationError>(()),
            Err(e) => spec_validate(id@, 10, 64) == Err::<(), ValidationError>(e),
        },
{
    match validate_identifier(id, 10, 64) {
        Ok(()) => Ok(id),
        Err(e) => Err(e),
    }
}

/// Repeating a validation with the same arguments yields the same result:
/// the outcome is a function of the identifier and the bounds alone.
pub proof fn lemma_validate_deterministic(
    s1: Seq<char>,
    s2: Seq<char>,
    min: usize,
    max: usize,
)
    requires
        s1 == s2,
    ensures
        spec_validate(s1, min, max) == spec_validate(s2, min, max),
{
}

/// Bounds law: an identifier of permitted characters with no separator is
/// accepted exactly when its length lies within the inclusive bounds, and is
/// rejected with `InvalidLength` when it does not.
pub proof fn lemma_validate_bounds(s: Seq<char>, min: usize, max: usize)
    requires
        s.len() > 0,
        !has_separator(s),
        all_chars_valid(s),
    ensures
        min <= s.len() <= max ==> spec_validate(s, min, max) == Ok::<(), ValidationError>(()),
        s.len() < min || s.len() > max ==> spec_validate(s, min, max) == Err::<
            (),
            ValidationError,
        >(ValidationError::InvalidLength { length: s.len() as usize, min, max }),
{
}

} // verus!
