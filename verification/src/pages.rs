use vstd::prelude::*;
use vstd::string::*;

verus! {

/// The body reported for a request whose path matches no route.
pub open spec fn spec_fallback_message(path: Seq<char>) -> Seq<char> {
    "Page "@ + path + " is not found"@
}

/// The body reported for a request whose method the matched path rejects.
pub open spec fn spec_not_allowed_message(path: Seq<char>) -> Seq<char> {
    "method not allowed for path "@ + path
}

/// Builds the not-found body for the given request path.
pub fn fallback_message(path: &str) -> (r: String)
    ensures
        r@ == spec_fallback_message(path@),
{
    let mut s = String::new();
    s.append("Page ");
    s.append(path);
    s.append(" is not found");
    proof {
        assert(s@ =~= spec_fallback_message(path@));
    }
    s
}

/// Builds the method-not-allowed body for the given request path.
pub fn not_allowed_message(path: &str) -> (r: String)
    ensures
        r@ == spec_not_allowed_message(path@),
{
    let mut s = String::new();
    s.append("method not allowed for path ");
    s.append(path);
    proof {
        assert(s@ =~= spec_not_allowed_message(path@));
    }
    s
}

} // verus!
