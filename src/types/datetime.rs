//! The engine writes dates as UTC times with a trailing `Z` where RFC 3339
//! text of a UTC time ends in `+00:00`; these functions swap the two forms.

use vstd::prelude::*;

verus! {

/// The wire form of RFC 3339 text: a trailing `+00:00` becomes `Z`; any
/// other text is kept.
pub open spec fn wire_date(s: Seq<char>) -> Seq<char> {
    if s.len() >= 6 && s.skip(s.len() - 6) == "+00:00"@ {
        s.take(s.len() - 6) + "Z"@
    } else {
        s
    }
}

/// RFC 3339 text of a wire date: a trailing `Z` becomes `+00:00`; any other
/// text is kept.
pub open spec fn rfc3339_date(s: Seq<char>) -> Seq<char> {
    if s.len() >= 1 && s.last() == 'Z' {
        s.drop_last() + "+00:00"@
    } else {
        s
    }
}

/// The wire form of the RFC 3339 text of a UTC time.
pub fn to_wire_date(rfc3339: &str) -> (r: String)
    ensures
        r@ == wire_date(rfc3339@),
{
    let n = rfc3339.unicode_len();
    if n >= 6 {
        let tail = String::from_str(rfc3339.substring_char(n - 6, n));
        let offset = String::from_str("+00:00");
        if tail == offset {
            let mut r = String::from_str(rfc3339.substring_char(0, n - 6));
            r.append("Z");
            return r;
        }
    }
    String::from_str(rfc3339)
}

/// The RFC 3339 text of a wire date.
pub fn from_wire_date(text: &str) -> (r: String)
    ensures
        r@ == rfc3339_date(text@),
{
    let n = text.unicode_len();
    if n >= 1 && text.get_char(n - 1) == 'Z' {
        let mut r = String::from_str(text.substring_char(0, n - 1));
        r.append("+00:00");
        return r;
    }
    String::from_str(text)
}

} // verus!
