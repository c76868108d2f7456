//! The slice helper: a borrowed view of a text value's first word — its
//! prefix up to, excluding, the first space, or the whole text when it
//! contains no space. The view borrows from the text, so it cannot
//! outlive it, and the text cannot be mutated while the view is live.

use vstd::prelude::*;

verus! {

/// How many characters of `s` come before its first space: the length
/// of the whole text when no space occurs.
pub open spec fn first_word_len(s: Seq<char>) -> int
    decreases s.len(),
{
    if s.len() == 0 {
        0
    } else if s[0] == ' ' {
        0
    } else {
        1 + first_word_len(s.drop_first())
    }
}

/// The first word of `s`: its prefix up to, excluding, the first space.
pub open spec fn first_word_of(s: Seq<char>) -> Seq<char> {
    s.take(first_word_len(s))
}

proof fn lemma_first_word_len_bounds(s: Seq<char>)
    ensures
        0 <= first_word_len(s) <= s.len(),
        forall|j: int| 0 <= j < first_word_len(s) ==> s[j] != ' ',
        first_word_len(s) < s.len() ==> s[first_word_len(s)] == ' ',
    decreases s.len(),
{
    if s.len() == 0 {
    } else if s[0] == ' ' {
    } else {
        let rest = s.drop_first();
        lemma_first_word_len_bounds(rest);
        assert forall|j: int| 0 <= j < first_word_len(s) implies s[j] != ' ' by {
            if j > 0 {
                assert(rest[j - 1] == s[j]);
            }
        }
        if first_word_len(s) < s.len() {
            assert(rest[first_word_len(rest)] == s[first_word_len(s)]);
        }
    }
}

proof fn lemma_first_word_len_is(s: Seq<char>, n: int)
    requires
        0 <= n <= s.len(),
        forall|j: int| 0 <= j < n ==> s[j] != ' ',
        n == s.len() || s[n] == ' ',
    ensures
        first_word_len(s) == n,
{
    lemma_first_word_len_bounds(s);
    let m = first_word_len(s);
    if m < n {
        assert(s[m] == ' ');
        assert(s[m] != ' ');
    } else if n < m {
        assert(s[n] == ' ');
        assert(s[n] != ' ');
    }
}

/// Scans the characters of `s` in order and returns the borrowed view
/// of everything before the first space, or of all of `s` when it has
/// no space.
pub fn first_word<'a>(s: &'a String) -> (r: &'a str)
    ensures
        r@ == first_word_of(s@),
{
    let text: &str = s.as_str();
    let n: usize = text.unicode_len();
    let mut i: usize = 0;
    loop
        invariant
            text@ == s@,
            n == s@.len(),
            i <= n,
            forall|j: int| 0 <= j < i ==> s@[j] != ' ',
        ensures
            i <= s@.len(),
            forall|j: int| 0 <= j < i ==> s@[j] != ' ',
            i == s@.len() || s@[i as int] == ' ',
        decreases n - i,
    {
        if i == n {
            break;
        }
        let c = text.get_char(i);
        if c == ' ' {
            break;
        }
        i = i + 1;
    }
    proof {
        lemma_first_word_len_is(s@, i as int);
    }
    text.substring_char(0, i)
}

} // verus!
