//! The redirect listener's decisions: the code in a redirect URL, and the
//! claim-once hand-off of that code to the waiting exchange.

use vstd::prelude::*;

use crate::error::Error;

verus! {

/// The reply to the redirect that delivered a code.
pub const AUTH_COMPLETE: &'static str = "Authorization complete.";

/// The reply to a redirect without a code.
pub const AUTH_FAILED: &'static str = "Authorization failed.";

/// The reply to any request once the hand-off has been claimed.
pub const AUTH_ALREADY_DONE: &'static str = "Ok";

/// `code=` starts at position `i` of `s`.
pub open spec fn code_key_at(s: Seq<char>, i: int) -> bool {
    0 <= i && i + 5 <= s.len() && s[i] == 'c' && s[i + 1] == 'o' && s[i + 2] == 'd' && s[i + 3]
        == 'e' && s[i + 4] == '='
}

/// The position of the first `&` at or after `k`, or the length of `s`.
pub open spec fn value_end(s: Seq<char>, k: int) -> int
    decreases s.len() - k,
{
    if k >= s.len() {
        s.len() as int
    } else if s[k] == '&' {
        k
    } else {
        value_end(s, k + 1)
    }
}

/// The value of the first `code=` at or after position `i`, up to the next
/// `&` or the end.
pub open spec fn code_from(s: Seq<char>, i: int) -> Option<Seq<char>>
    decreases s.len() - i,
{
    if i < 0 || i + 5 > s.len() {
        None
    } else if code_key_at(s, i) {
        Some(s.subrange(i + 5, value_end(s, i + 5)))
    } else {
        code_from(s, i + 1)
    }
}

/// The code a redirect URL carries: the value of its first `code=`.
pub open spec fn code_in(url: Seq<char>) -> Option<Seq<char>> {
    code_from(url, 0)
}

/// The code in a redirect URL: the text after the first `code=` up to the
/// next `&` or the end; `None` where the URL has no `code=`.
pub fn extract_code(url: &str) -> (r: Option<String>)
    ensures
        match code_in(url@) {
            Some(c) => r matches Some(s) && s@ == c,
            None => r is None,
        },
{
    let len = url.unicode_len();
    if len < 5 {
        return None;
    }
    let mut i: usize = 0;
    while i <= len - 5
        invariant
            len == url@.len(),
            len >= 5,
            i + 5 <= len + 1,
            code_in(url@) == code_from(url@, i as int),
        decreases len - i,
    {
        if url.get_char(i) == 'c' && url.get_char(i + 1) == 'o' && url.get_char(i + 2) == 'd'
            && url.get_char(i + 3) == 'e' && url.get_char(i + 4) == '=' {
            let start = i + 5;
            let mut end = start;
            while end < len
                invariant
                    len == url@.len(),
                    start <= end <= len,
                    value_end(url@, start as int) == value_end(url@, end as int),
                ensures
                    start <= end <= len,
                    value_end(url@, start as int) == value_end(url@, end as int),
                    end == len || url@[end as int] == '&',
                decreases len - end,
            {
                if url.get_char(end) == '&' {
                    break;
                }
                end = end + 1;
            }
            assert(code_key_at(url@, i as int));
            assert(value_end(url@, end as int) == end as int);
            let code = url.substring_char(start, end);
            return Some(code.to_string());
        }
        i = i + 1;
    }
    None
}

/// What the listener does with one request.
pub struct CallbackReply {
    /// What to hand to the waiting exchange, if anything.
    pub hand_off: Option<Result<String, Error>>,
    /// The body of the response to the request.
    pub message: String,
}

/// The single-take slot between the listener and the exchange that waits for
/// its code: the first request claims it, and later ones are only answered.
pub struct CodeSlot {
    pub claimed: bool,
}

impl CodeSlot {
    /// A slot that nothing has claimed yet.
    pub fn new() -> (r: CodeSlot)
        ensures
            !r.claimed,
    {
        CodeSlot { claimed: false }
    }

    /// Decides the reply to a request for `url`. The first request claims the
    /// slot and hands over its code, or `AuthorizationFailed` where it has
    /// none; every later request gets the generic reply and hands over nothing.
    pub fn on_request(&mut self, url: &str) -> (r: CallbackReply)
        ensures
            final(self).claimed,
            old(self).claimed ==> {
                &&& r.hand_off is None
                &&& r.message@ == AUTH_ALREADY_DONE@
            },
            !old(self).claimed ==> match code_in(url@) {
                Some(c) => {
                    &&& r.hand_off matches Some(Ok(s)) && s@ == c
                    &&& r.message@ == AUTH_COMPLETE@
                },
                None => {
                    &&& r.hand_off == Some(Err::<String, Error>(Error::AuthorizationFailed))
                    &&& r.message@ == AUTH_FAILED@
                },
            },
    {
        if self.claimed {
            return CallbackReply { hand_off: None, message: AUTH_ALREADY_DONE.to_string() };
        }
        self.claimed = true;
        match extract_code(url) {
            Some(code) => CallbackReply {
                hand_off: Some(Ok(code)),
                message: AUTH_COMPLETE.to_string(),
            },
            None => CallbackReply {
                hand_off: Some(Err(Error::AuthorizationFailed)),
                message: AUTH_FAILED.to_string(),
            },
        }
    }
}

} // verus!
