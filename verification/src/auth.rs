//! Reading the bearer token off a request.

use vstd::prelude::*;

use crate::events::optional_text;

verus! {

/// The scheme word and the space that precede a bearer token.
pub open spec fn bearer_prefix() -> Seq<char> {
    seq!['B', 'e', 'a', 'r', 'e', 'r', ' ']
}

/// The token of an `Authorization` header value: what follows `Bearer ` where the value
/// begins with it, and nothing otherwise.
pub open spec fn bearer_token_of(authorization: Seq<char>) -> Option<Seq<char>> {
    if authorization.len() >= 7 && authorization.take(7) == bearer_prefix() {
        Some(authorization.skip(7))
    } else {
        None
    }
}

/// Reads the bearer token off the value of an `Authorization` header.
pub fn bearer_token(authorization: &str) -> (token: Option<String>)
    ensures
        optional_text(token) == bearer_token_of(authorization@),
{
    let prefix: &str = "Bearer ";
    proof {
        reveal_strlit("Bearer ");
        assert(prefix@ =~= bearer_prefix());
    }
    let length: usize = authorization.unicode_len();
    if length < 7 {
        return None;
    }
    let mut i: usize = 0;
    while i < 7
        invariant
            i <= 7,
            length == authorization@.len(),
            length >= 7,
            prefix@ == bearer_prefix(),
            forall|k: int| 0 <= k < i ==> authorization@[k] == bearer_prefix()[k],
        decreases 7 - i,
    {
        if authorization.get_char(i) != prefix.get_char(i) {
            assert(authorization@.take(7)[i as int] != bearer_prefix()[i as int]);
            return None;
        }
        i += 1;
    }
    assert(authorization@.take(7) =~= bearer_prefix());
    let rest: &str = authorization.substring_char(7, length);
    assert(rest@ =~= authorization@.skip(7));
    Some(String::from_str(rest))
}

} // verus!
