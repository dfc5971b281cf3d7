//! Choice of the outbound User-Agent header: forward the caller's own value
//! when it is structurally valid as an HTTP header value, else fall back to a
//! fixed default naming this service.

use vstd::prelude::*;

verus! {

/// The default outbound User-Agent: the service's name and version.
pub const DEFAULT_USER_AGENT: &'static str = "Readable/0.1.0";

/// A character an HTTP header value may hold: horizontal tab, or anything
/// outside the control range other than delete. Multi-byte characters encode
/// to bytes that are always acceptable, so the check is per character.
pub open spec fn valid_header_char(ch: char) -> bool {
    ch == '\t' || (32 <= ch as int && ch as int != 127)
}

pub open spec fn valid_header_value(s: Seq<char>) -> bool {
    forall|i: int| 0 <= i < s.len() ==> valid_header_char(s[i])
}

/// What the outbound User-Agent is, given the caller's optional header.
pub open spec fn agent_for(ua: Option<Seq<char>>) -> Seq<char> {
    match ua {
        Some(s) => if valid_header_value(s) {
            s
        } else {
            DEFAULT_USER_AGENT@
        },
        None => DEFAULT_USER_AGENT@,
    }
}

pub open spec fn opt_str_view(ua: Option<&str>) -> Option<Seq<char>> {
    match ua {
        Some(s) => Some(s@),
        None => None,
    }
}

fn is_valid_header_value(s: &str) -> (b: bool)
    ensures
        b == valid_header_value(s@),
{
    let len = s.unicode_len();
    let mut i: usize = 0;
    while i < len
        invariant
            i <= len,
            len == s@.len(),
            forall|k: int| 0 <= k < i ==> valid_header_char(s@[k]),
        decreases len - i,
    {
        let ch = s.get_char(i);
        if !(ch == '\t' || (ch as u32 >= 32 && ch as u32 != 127)) {
            return false;
        }
        i += 1;
    }
    true
}

/// The outbound User-Agent: the caller's header where it is present and
/// valid, else the fixed default.
pub fn forwarded_agent(ua_header: Option<&str>) -> (r: String)
    ensures
        r@ == agent_for(opt_str_view(ua_header)),
{
    match ua_header {
        Some(ua) => {
            if is_valid_header_value(ua) {
                String::from_str(ua)
            } else {
                String::from_str(DEFAULT_USER_AGENT)
            }
        },
        None => String::from_str(DEFAULT_USER_AGENT),
    }
}

} // verus!
