//! SteamID64 input normalisation.

use vstd::prelude::*;
use vstd::string::*;
use crate::text::{trim, trim_seq, trim_start_seq, trim_end_seq, is_white_space};

verus! {

/// An ASCII decimal digit.
pub open spec fn is_ascii_digit(c: char) -> bool {
    '0' <= c && c <= '9'
}

/// Exactly seventeen ASCII decimal digits.
pub open spec fn is_steam_id64(s: Seq<char>) -> bool {
    &&& s.len() == 17
    &&& forall|i: int| 0 <= i < s.len() ==> #[trigger] is_ascii_digit(s[i])
}

/// The message returned for input that is not a SteamID64.
pub open spec fn invalid_steam_id_message() -> Seq<char> {
    "Enter a 17-digit SteamID64."@
}

/// Trims the input and accepts it only when what remains is a 17-digit
/// SteamID64.
pub fn normalize_steam_id(raw: &str) -> (r: Result<String, String>)
    ensures
        r is Ok <==> is_steam_id64(trim_seq(raw@)),
        r matches Ok(id) ==> id@ == trim_seq(raw@),
        r matches Err(msg) ==> msg@ == invalid_steam_id_message(),
{
    let trimmed = trim(raw);
    let n = trimmed.unicode_len();
    let mut ok = n == 17;
    let mut i: usize = 0;
    while ok && i < n
        invariant
            n == trimmed@.len(),
            i <= n,
            ok ==> n == 17,
            ok ==> forall|j: int| 0 <= j < i ==> #[trigger] is_ascii_digit(trimmed@[j]),
            !ok ==> !is_steam_id64(trimmed@),
        decreases n - i,
    {
        let c = trimmed.get_char(i);
        if !('0' <= c && c <= '9') {
            assert(!is_ascii_digit(trimmed@[i as int]));
            ok = false;
        }
        i = i + 1;
    }
    if !ok {
        return Err(String::from_str("Enter a 17-digit SteamID64."));
    }
    Ok(String::from_str(trimmed))
}

/// A normalised SteamID64 normalises to itself: seventeen digits carry no
/// whitespace to trim.
pub proof fn law_normalized_id_is_fixed_point(id: Seq<char>)
    requires
        is_steam_id64(id),
    ensures
        trim_seq(id) == id,
        is_steam_id64(trim_seq(id)),
{
    assert(is_ascii_digit(id[0]));
    assert(!is_white_space(id[0]));
    assert(trim_start_seq(id) == id);
    assert(is_ascii_digit(id[16]));
    assert(id.last() == id[16]);
    assert(trim_end_seq(id) == id);
}

} // verus!
