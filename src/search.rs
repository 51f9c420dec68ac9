use vstd::prelude::*;
use vstd::string::StrSliceExecFns;

verus! {

/// `r` is the outcome of scanning `text` for `target` from the front: the
/// zero-based position of the first occurrence, or `None` when there is none.
pub open spec fn is_first_match(text: Seq<char>, target: char, r: Option<nat>) -> bool {
    match r {
        Some(i) => i < text.len() && text[i as int] == target && forall|j: int|
            0 <= j < i ==> text[j] != target,
        None => forall|j: int| 0 <= j < text.len() ==> text[j] != target,
    }
}

/// The position, counted in characters, of the first occurrence of `target`
/// in `text`, or `None` when `target` does not occur.
pub fn find_first(text: &str, target: char) -> (r: Option<usize>)
    ensures
        is_first_match(text@, target, match r {
            Some(i) => Some(i as nat),
            None => None,
        }),
{
    let n = text.unicode_len();
    let mut i: usize = 0;
    while i < n
        invariant
            n == text@.len(),
            i <= n,
            forall|j: int| 0 <= j < i ==> text@[j] != target,
        decreases n - i,
    {
        if text.get_char(i) == target {
            return Some(i);
        }
        i = i + 1;
    }
    None
}

/// The search has exactly one possible outcome for a given text and target,
/// so scanning the same input twice reports the same result.
pub proof fn lemma_first_match_unique(text: Seq<char>, target: char, a: Option<nat>, b: Option<nat>)
    requires
        is_first_match(text, target, a),
        is_first_match(text, target, b),
    ensures
        a == b,
{
    match (a, b) {
        (Some(i), Some(k)) => {
            if i < k {
                assert(text[i as int] == target);
            } else if k < i {
                assert(text[k as int] == target);
            }
        },
        (Some(i), None) => {
            assert(text[i as int] == target);
        },
        (None, Some(k)) => {
            assert(text[k as int] == target);
        },
        (None, None) => {},
    }
}

/// The position of the first `'a'` in `s`, as a signed 32-bit index.
pub fn find_first_a(s: String) -> (r: Option<i32>)
    requires
        s@.len() <= i32::MAX,
    ensures
        match r {
            Some(i) => 0 <= i && is_first_match(s@, 'a', Some(i as nat)),
            None => is_first_match(s@, 'a', None),
        },
{
    match find_first(s.as_str(), 'a') {
        Some(i) => Some(i as i32),
        None => None,
    }
}

} // verus!
