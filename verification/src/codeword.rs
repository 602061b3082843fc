//! The codeword `vertraulich` at the start of a dictation keeps its text-model
//! step on the local machine, and that step is given the text without the
//! codeword. Modes without a text-model step keep the transcript as it is.

use vstd::prelude::*;
use vstd::string::*;

use crate::text::{
    char_is_white_space, is_white_space, leading_ws, lemma_leading_ws, lemma_leading_ws_bound,
};

verus! {

/// The codeword, in lower case.
pub open spec fn codeword() -> Seq<char> {
    seq!['v', 'e', 'r', 't', 'r', 'a', 'u', 'l', 'i', 'c', 'h']
}

/// `c` is the lower-case letter `w`, or its ASCII capital.
pub open spec fn same_letter(c: char, w: char) -> bool {
    c == w || ('A' <= c <= 'Z' && (c as u32) + 32 == w as u32)
}

/// What may follow the codeword: white space or punctuation.
pub open spec fn is_separator(c: char) -> bool {
    is_white_space(c) || c == ',' || c == '.' || c == ':' || c == ';' || c == '!' || c == '?'
        || c == '-'
}

/// Number of leading separators.
pub open spec fn leading_separators(s: Seq<char>) -> nat
    decreases s.len(),
{
    if s.len() > 0 && is_separator(s[0]) {
        1 + leading_separators(s.drop_first())
    } else {
        0
    }
}

/// `s` begins with the codeword as a word of its own, in any ASCII case.
pub open spec fn starts_with_codeword(s: Seq<char>) -> bool {
    &&& s.len() >= 11
    &&& forall|i: int| 0 <= i < 11 ==> same_letter(#[trigger] s[i], codeword()[i])
    &&& (s.len() == 11 || is_separator(s[11]))
}

/// Where the text after the codeword begins: after the leading white space,
/// the codeword and the separators that follow it.
pub open spec fn codeword_end(t: Seq<char>) -> nat {
    let k = leading_ws(t) + 11;
    k + leading_separators(t.skip(k as int))
}

/// The text after the codeword, where `t` starts with it.
pub open spec fn codeword_rest(t: Seq<char>) -> Option<Seq<char>> {
    if starts_with_codeword(t.skip(leading_ws(t) as int)) {
        Some(t.skip(codeword_end(t) as int))
    } else {
        None
    }
}

pub fn char_is_separator(c: char) -> (r: bool)
    ensures
        r == is_separator(c),
{
    char_is_white_space(c) || c == ',' || c == '.' || c == ':' || c == ';' || c == '!' || c
        == '?' || c == '-'
}

proof fn lemma_leading_separators(s: Seq<char>, k: nat)
    requires
        k <= s.len(),
        forall|i: int| 0 <= i < k ==> is_separator(#[trigger] s[i]),
        k == s.len() || !is_separator(s[k as int]),
    ensures
        leading_separators(s) == k,
    decreases k,
{
    if k > 0 {
        let t = s.drop_first();
        assert forall|i: int| 0 <= i < k - 1 implies is_separator(#[trigger] t[i]) by {
            assert(t[i] == s[i + 1]);
        }
        if k - 1 < t.len() {
            assert(t[k - 1] == s[k as int]);
        }
        lemma_leading_separators(t, (k - 1) as nat);
    }
}

/// The text after the codeword `vertraulich`, where the dictation starts
/// with it; `None` otherwise.
pub fn confidential_text(t: &str) -> (r: Option<String>)
    ensures
        match r {
            Some(s) => codeword_rest(t@) == Some(s@),
            None => codeword_rest(t@) is None,
        },
{
    let word: [char; 11] = ['v', 'e', 'r', 't', 'r', 'a', 'u', 'l', 'i', 'c', 'h'];
    assert(word@ =~= codeword());
    let n = t.unicode_len();
    let mut i: usize = 0;
    while i < n && char_is_white_space(t.get_char(i))
        invariant
            n == t@.len(),
            i <= n,
            forall|k: int| 0 <= k < i ==> is_white_space(#[trigger] t@[k]),
        decreases n - i,
    {
        i = i + 1;
    }
    proof {
        lemma_leading_ws(t@, i as nat);
    }
    let ghost s = t@.skip(i as int);
    if n - i < 11 {
        return None;
    }
    let mut j: usize = 0;
    while j < 11
        invariant
            n == t@.len(),
            i + 11 <= n,
            j <= 11,
            s == t@.skip(i as int),
            i == leading_ws(t@),
            word@ == codeword(),
            forall|k: int| 0 <= k < j ==> same_letter(#[trigger] s[k], codeword()[k]),
        decreases 11 - j,
    {
        let c = t.get_char(i + j);
        let w = word[j];
        assert(s[j as int] == c);
        if !(c == w || ('A' <= c && c <= 'Z' && (c as u32) + 32 == (w as u32))) {
            assert(!same_letter(s[j as int], codeword()[j as int]));
            return None;
        }
        j = j + 1;
    }
    if n - i > 11 && !char_is_separator(t.get_char(i + 11)) {
        assert(s[11] == t@[i + 11]);
        return None;
    }
    assert(s.len() == 11 || is_separator(s[11])) by {
        if s.len() > 11 {
            assert(s[11] == t@[i + 11]);
        }
    }
    assert(starts_with_codeword(s));
    let start = i + 11;
    let mut k: usize = start;
    while k < n && char_is_separator(t.get_char(k))
        invariant
            n == t@.len(),
            start <= k <= n,
            forall|m: int| start <= m < k ==> is_separator(#[trigger] t@[m]),
        decreases n - k,
    {
        k = k + 1;
    }
    proof {
        let rest = t@.skip(start as int);
        assert forall|m: int| 0 <= m < k - start implies is_separator(#[trigger] rest[m]) by {
            assert(rest[m] == t@[m + start]);
        }
        if k < n {
            assert(rest[k - start] == t@[k as int]);
        }
        lemma_leading_separators(rest, (k - start) as nat);
    }
    let r = String::from_str(t.substring_char(k, n));
    assert(r@ =~= t@.skip(k as int));
    Some(r)
}

/// The codeword and what precedes it are cut off: the rest is what follows
/// them in the dictation.
pub proof fn lemma_codeword_removed(t: Seq<char>)
    ensures
        codeword_rest(t) matches Some(r) ==> {
            &&& codeword_end(t) <= t.len()
            &&& r == t.skip(codeword_end(t) as int)
            &&& leading_ws(t) + 11 <= codeword_end(t)
            &&& r.len() + 11 <= t.len()
        },
{
    lemma_leading_ws_bound(t);
    if let Some(r) = codeword_rest(t) {
        let k = leading_ws(t) + 11;
        let rest = t.skip(k as int);
        lemma_leading_separators_bound(rest);
    }
}

proof fn lemma_leading_separators_bound(s: Seq<char>)
    ensures
        leading_separators(s) <= s.len(),
    decreases s.len(),
{
    if s.len() > 0 && is_separator(s[0]) {
        lemma_leading_separators_bound(s.drop_first());
    }
}

} // verus!
