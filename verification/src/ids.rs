use vstd::prelude::*;

verus! {

/// The nil identifier, which stands in for the identifier of a record that carries none.
pub const NIL_LOG_ID: &'static str = "00000000-0000-0000-0000-000000000000";

/// The number of characters of an identifier in hyphenated form.
pub const LOG_ID_LEN: usize = 36;

/// Whether a character is a hexadecimal digit in lower case.
pub open spec fn is_hex_digit(c: char) -> bool {
    ('0' <= c && c <= '9') || ('a' <= c && c <= 'f')
}

/// Whether a position of an identifier in hyphenated form holds a hyphen.
pub open spec fn is_hyphen_position(i: int) -> bool {
    i == 8 || i == 13 || i == 18 || i == 23
}

/// Whether a text is an identifier in hyphenated form: 32 hexadecimal digits in lower case, in
/// groups of 8, 4, 4, 4 and 12 with a hyphen between two groups.
pub open spec fn is_hyphenated(id: Seq<char>) -> bool {
    &&& id.len() == LOG_ID_LEN
    &&& forall|i: int|
        0 <= i < id.len() ==> if is_hyphen_position(i) {
            #[trigger] id[i] == '-'
        } else {
            is_hex_digit(id[i])
        }
}

/// Whether a text is a random identifier in hyphenated form: one whose version digit, the first
/// of the third group, is 4.
pub open spec fn is_random_id(id: Seq<char>) -> bool {
    is_hyphenated(id) && id[14] == '4'
}

/// A random identifier is never the nil identifier.
pub proof fn lemma_random_id_is_not_nil(id: Seq<char>)
    requires
        is_random_id(id),
    ensures
        id != NIL_LOG_ID@,
        id.len() > 0,
{
    reveal_strlit("00000000-0000-0000-0000-000000000000");
    assert(NIL_LOG_ID@[14] == '0');
}

/// A new random identifier.
///
/// Calls `Uuid::new_v4`, which draws 128 bits at random and sets the version to 4, and writes
/// the result out with `to_string`, which gives the hyphenated form in lower case. Which digits
/// come out is left to chance, so the contract states the form and the version digit only.
#[verifier::external_body]
pub(crate) fn fresh_log_id() -> (id: String)
    ensures
        is_random_id(id@),
{
    uuid::Uuid::new_v4().to_string()
}

/// The nil identifier.
///
/// Calls `Uuid::nil`, whose 128 bits are all zero, and writes it out with `to_string` in the
/// hyphenated form.
#[verifier::external_body]
pub(crate) fn nil_log_id() -> (id: String)
    ensures
        id@ == NIL_LOG_ID@,
{
    uuid::Uuid::nil().to_string()
}

} // verus!
