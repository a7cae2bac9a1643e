use vstd::prelude::*;
use vstd::string::*;

use crate::errors::AppError;

verus! {

/// Index of the first `'@'` in `s` at or after `i`, or `s.len()` when
/// there is none.
pub open spec fn find_at(s: Seq<char>, i: int) -> int
    decreases s.len() - i,
{
    if i < 0 || i >= s.len() {
        s.len() as int
    } else if s[i] == '@' {
        i
    } else {
        find_at(s, i + 1)
    }
}

/// Index of the last `'.'` in `s` strictly after `a` and at or before
/// `i`, or `a` when there is none.
pub open spec fn last_dot(s: Seq<char>, a: int, i: int) -> int
    decreases i - a,
{
    if i <= a || i >= s.len() {
        a
    } else if s[i] == '.' {
        i
    } else {
        last_dot(s, a, i - 1)
    }
}

/// Whether an address has an acceptable top-level domain: a `'@'` must be
/// present, and the part of the domain after its last `'.'` (the whole
/// domain when it has no `'.'`) must be at least two characters long.
pub open spec fn email_tld_ok(s: Seq<char>) -> bool {
    let a = find_at(s, 0);
    a < s.len() && s.len() - (last_dot(s, a, s.len() - 1) + 1) >= 2
}

proof fn lemma_find_at_prefix(s: Seq<char>, i: int)
    requires
        0 <= i <= s.len(),
        forall|j: int| 0 <= j < i ==> s[j] != '@',
    ensures
        find_at(s, 0) == find_at(s, i),
    decreases i,
{
    if i > 0 {
        lemma_find_at_prefix(s, i - 1);
    }
}

proof fn lemma_last_dot_suffix(s: Seq<char>, a: int, k: int)
    requires
        0 <= a,
        a <= k <= s.len(),
        forall|j: int| k <= j < s.len() ==> s[j] != '.',
    ensures
        last_dot(s, a, s.len() - 1) == last_dot(s, a, k - 1),
    decreases s.len() - k,
{
    if k < s.len() {
        lemma_last_dot_suffix(s, a, k + 1);
    }
}

/// Checks the top-level domain of an address: accepts exactly the strings
/// that [`email_tld_ok`] describes, and reports a validation failure for
/// every other string.
pub fn validate_email_tld(email: &str) -> (r: Result<(), AppError>)
    ensures
        r is Ok <==> email_tld_ok(email@),
        r is Err ==> r === Err(AppError::Validation),
{
    let len = email.unicode_len();
    let mut i: usize = 0;
    while i < len && email.get_char(i) != '@'
        invariant
            len == email@.len(),
            0 <= i <= len,
            forall|j: int| 0 <= j < i ==> email@[j] != '@',
        decreases len - i,
    {
        i = i + 1;
    }
    proof {
        lemma_find_at_prefix(email@, i as int);
    }
    if i >= len {
        return Err(AppError::Validation);
    }
    let mut k: usize = len;
    while k > i + 1 && email.get_char(k - 1) != '.'
        invariant
            len == email@.len(),
            i < len,
            i + 1 <= k <= len,
            forall|j: int| k <= j < len ==> email@[j] != '.',
        decreases k,
    {
        k = k - 1;
    }
    proof {
        lemma_last_dot_suffix(email@, i as int, k as int);
    }
    let d: usize = if k > i + 1 { k - 1 } else { i };
    if len - d >= 3 {
        Ok(())
    } else {
        Err(AppError::Validation)
    }
}

} // verus!
