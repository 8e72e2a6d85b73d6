use vstd::prelude::*;

verus! {

/// Shortest account id the network accepts, in bytes.
pub const MIN_ACCOUNT_ID_LEN: usize = 2;

/// Longest account id the network accepts, in bytes.
pub const MAX_ACCOUNT_ID_LEN: usize = 64;

/// A separator may join two runs of letters and digits.
pub open spec fn is_separator(c: char) -> bool {
    c == '-' || c == '_' || c == '.'
}

/// Lowercase ASCII letters, ASCII digits and separators.
pub open spec fn is_account_char(c: char) -> bool {
    ('a' <= c && c <= 'z') || ('0' <= c && c <= '9') || is_separator(c)
}

/// A valid account id: 2 to 64 characters from `[a-z0-9-_.]`, neither
/// starting nor ending with a separator, with no two separators in a row.
pub open spec fn is_valid_account_id(s: Seq<char>) -> bool {
    &&& MIN_ACCOUNT_ID_LEN <= s.len() <= MAX_ACCOUNT_ID_LEN
    &&& forall|i: int| 0 <= i < s.len() ==> #[trigger] is_account_char(s[i])
    &&& !is_separator(s[0])
    &&& !is_separator(s[s.len() - 1])
    &&& forall|i: int| 0 <= i < s.len() - 1 ==> !(#[trigger] is_separator(s[i]) && is_separator(s[i + 1]))
}

/// Relies on `near_sdk::AccountId::from_str`, which keeps the text as it is
/// and accepts it exactly when `near_sdk::env::is_valid_account_id` holds of
/// its bytes (a non-ASCII character is never valid, so bytes and characters
/// agree on every id that passes).
#[verifier::external_body]
pub(crate) fn parse_account_id(s: &str) -> (r: Option<String>)
    ensures
        r is Some <==> is_valid_account_id(s@),
        r matches Some(id) ==> id@ == s@,
{
    s.parse::<near_sdk::AccountId>().ok().map(String::from)
}

} // verus!
