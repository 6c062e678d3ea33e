use vstd::prelude::*;

verus! {

/// The shape of a phone number: three digits, a hyphen and four digits, or three digits, a
/// hyphen, three digits, a hyphen and four digits, with a word boundary on either side.
pub const PHONE_PATTERN: &'static str = r"\b(?:\d{3}-\d{4}|\d{3}-\d{3}-\d{4})\b";

/// What is written in the place of a phone number.
pub const REDACTION_MARKER: &'static str = "[REDACTED]";

/// A text in which every match of a pattern has given way to a replacement: the matches are
/// those that a search from left to right finds, none overlapping another.
pub uninterp spec fn replaced_all(
    pattern: Seq<char>,
    text: Seq<char>,
    replacement: Seq<char>,
) -> Seq<char>;

/// Replaces every match of a pattern in a text.
///
/// Compiles the pattern with `Regex::new` and calls `Regex::replace_all` with the text and the
/// replacement. The contract names the result [`replaced_all`] and says no more of it. It admits
/// [`PHONE_PATTERN`] only, which is well formed, so that compiling does not fail.
#[verifier::external_body]
pub(crate) fn replace_all(pattern: &str, text: &str, replacement: &str) -> (out: String)
    requires
        pattern@ == PHONE_PATTERN@,
    ensures
        out@ == replaced_all(pattern@, text@, replacement@),
{
    regex::Regex::new(pattern).unwrap().replace_all(text, replacement).into_owned()
}

/// A text with its phone numbers redacted.
pub open spec fn redacted(text: Seq<char>) -> Seq<char> {
    replaced_all(PHONE_PATTERN@, text, REDACTION_MARKER@)
}

/// Writes [`REDACTION_MARKER`] in the place of every phone number in a text.
pub fn redact_phone_numbers(text: &str) -> (out: String)
    ensures
        out@ == redacted(text@),
{
    replace_all(PHONE_PATTERN, text, REDACTION_MARKER)
}

} // verus!
