//! What the resolvers put into a request, and how they treat a rate-limit
//! answer: they wait once, for a fixed time, and then read the answer they
//! already have. They do not ask again.

use vstd::prelude::*;

verus! {

/// The status with which a service says that it is rate limiting.
pub const TOO_MANY_REQUESTS: u16 = 429;

/// The fixed pause after a rate-limit answer, in seconds.
pub const RATE_LIMIT_PAUSE_SECS: u64 = 30;

/// Seconds to wait after an answer with `status`, before its body is read.
pub fn pause_before_parse(status: u16) -> (r: u64)
    ensures
        r == if status == TOO_MANY_REQUESTS {
            RATE_LIMIT_PAUSE_SECS
        } else {
            0
        },
{
    if status == TOO_MANY_REQUESTS {
        RATE_LIMIT_PAUSE_SECS
    } else {
        0
    }
}

/// A title with each space replaced by an underscore.
pub open spec fn underscored(s: Seq<char>) -> Seq<char> {
    s.map_values(|c: char| if c == ' ' { '_' } else { c })
}

/// The form of a page title that the services take in a request.
pub fn title_key(title: &str) -> (r: String)
    ensures
        r@ == underscored(title@),
{
    let n = title.unicode_len();
    let mut r = String::new();
    let mut i: usize = 0;
    while i < n
        invariant
            i <= n,
            n == title@.len(),
            r@ == underscored(title@.subrange(0, i as int)),
        decreases n - i,
    {
        let c = title.get_char(i);
        let ghost before = r@;
        proof {
            reveal_strlit("_");
        }
        if c == ' ' {
            r.append("_");
        } else {
            r.append(title.substring_char(i, i + 1));
        }
        let ghost mapped = if c == ' ' { '_' } else { c };
        assert(r@ =~= before + seq![mapped]);
        assert(underscored(title@.subrange(0, i + 1)) =~= underscored(title@.subrange(0, i as int)) + seq![mapped]);
        i = i + 1;
    }
    assert(title@.subrange(0, n as int) =~= title@);
    r
}

} // verus!
