use std::str::FromStr;

use http::header::{HeaderName, HeaderValue};
use vstd::prelude::*;

verus! {

/// A character that may stand in an HTTP header name (an RFC 9110 `tchar`).
pub open spec fn is_token_char(c: char) -> bool {
    ||| ('0' <= c && c <= '9')
    ||| ('a' <= c && c <= 'z')
    ||| ('A' <= c && c <= 'Z')
    ||| c == '!' || c == '#' || c == '$' || c == '%' || c == '&' || c == '\''
    ||| c == '*' || c == '+' || c == '-' || c == '.' || c == '^' || c == '_'
    ||| c == '`' || c == '|' || c == '~'
}

/// A valid header name: 1 to 65535 token characters.
pub open spec fn is_header_name(s: Seq<char>) -> bool {
    &&& 1 <= s.len() <= 65535
    &&& forall|i: int| 0 <= i < s.len() ==> is_token_char(#[trigger] s[i])
}

pub open spec fn ascii_lower(c: char) -> char {
    if 'A' <= c && c <= 'Z' {
        ((c as u32) + 32) as char
    } else {
        c
    }
}

/// `s` with its ASCII capitals made small.
pub open spec fn ascii_lowercase(s: Seq<char>) -> Seq<char> {
    s.map_values(|c: char| ascii_lower(c))
}

/// A valid header value: no control character but the horizontal tab.
pub open spec fn is_header_value(s: Seq<char>) -> bool {
    forall|i: int|
        0 <= i < s.len() ==> {
            let c = #[trigger] s[i] as u32;
            (c >= 32 && c != 127) || c == 9
        }
}

/// Relies on `http::HeaderName::from_str`, and `HeaderName::as_str` to read the result:
/// the name parses exactly when it is 1 to 65535 token characters, and the parsed name
/// is the input in lower case.
#[verifier::external_body]
pub(crate) fn canonical_header_name(name: &str) -> (r: Option<String>)
    ensures
        r is Some <==> is_header_name(name@),
        r matches Some(n) ==> n@ == ascii_lowercase(name@),
{
    HeaderName::from_str(name).ok().map(|n| n.as_str().to_string())
}

/// Relies on `http::HeaderValue::from_str`: it accepts a string exactly when no byte is
/// a control character other than the horizontal tab (bytes of non-ASCII characters are
/// all accepted).
#[verifier::external_body]
pub(crate) fn header_value_accepted(value: &str) -> (r: bool)
    ensures
        r == is_header_value(value@),
{
    HeaderValue::from_str(value).is_ok()
}

} // verus!
