//! The served capability: a single logical object implementing one
//! request-in/response-out operation. It holds no mutable per-call state,
//! so one instance may be shared read-only across all sessions.

use vstd::prelude::*;

verus! {

/// The sequence of characters of `s`, in reverse order.
pub open spec fn reversed(s: Seq<char>) -> Seq<char> {
    Seq::new(s.len(), |i: int| s[s.len() - 1 - i])
}

/// The main RPC implementation structure.
pub struct Rpc;

impl Rpc {
    /// The served operation: answer a request text with the
    /// character-reversed text. It has no failure modes of its own;
    /// message-decoding errors are handled by the framing layer.
    pub fn hello(&self, request: &str) -> (response: String)
        ensures
            response@ == reversed(request@),
    {
        let n: usize = request.unicode_len();
        let mut response = String::new();
        let mut i: usize = 0;
        while i < n
            invariant
                n == request@.len(),
                i <= n,
                response@ =~= reversed(request@).take(i as int),
            decreases n - i,
        {
            let piece = request.substring_char(n - 1 - i, n - i);
            response.append(piece);
            i = i + 1;
        }
        proof {
            assert(response@ =~= reversed(request@));
        }
        response
    }
}

} // verus!

