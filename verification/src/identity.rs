use vstd::prelude::*;

verus! {

/// A lower-case letter or a digit.
pub open spec fn is_id_char(c: char) -> bool {
    ('a' <= c && c <= 'z') || ('0' <= c && c <= '9')
}

/// One of the three characters that part an account name.
pub open spec fn is_separator(c: char) -> bool {
    c == '-' || c == '_' || c == '.'
}

/// Whether `id` can name an account: two to sixty-four characters, each a
/// lower-case letter, a digit or a separator, no separator at either end and
/// no two separators side by side.
pub open spec fn valid_account_id(id: Seq<char>) -> bool {
    &&& 2 <= id.len() <= 64
    &&& forall|i: int| 0 <= i < id.len() ==> is_id_char(#[trigger] id[i]) || is_separator(id[i])
    &&& !is_separator(id[0])
    &&& !is_separator(id[id.len() - 1])
    &&& forall|i: int|
        0 <= i < id.len() - 1 ==> !(is_separator(#[trigger] id[i]) && is_separator(id[i + 1]))
}

/// Calls `near_sdk::env::is_valid_account_id` on the bytes of `id`. That
/// function turns down a length outside two to sixty-four bytes, every byte
/// that is not a lower-case letter, a digit, `-`, `_` or `.`, a separator at
/// either end and two separators in a row, and accepts the rest. A character
/// outside ASCII is encoded in bytes that it turns down, so the answer is the
/// same when stated over the characters, as it is here.
#[verifier::external_body]
pub(crate) fn is_valid_account_id(id: &String) -> (valid: bool)
    ensures
        valid == valid_account_id(id@),
{
    near_sdk::env::is_valid_account_id(id.as_bytes())
}

} // verus!
