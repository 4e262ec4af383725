//! Verified text machinery for keyword matching on description strings:
//! substring search, word-bounded search, left-to-right substring removal,
//! and whitespace stripping, all specified over `Seq<char>`.

use vstd::prelude::*;
use vstd::string::*;

verus! {

/// The keyword `k` occurs in `t` starting at index `i`.
pub open spec fn contains_at(t: Seq<char>, k: Seq<char>, i: int) -> bool {
    0 <= i && i + k.len() <= t.len() && t.subrange(i, i + k.len() as int) == k
}

/// The keyword `k` occurs somewhere in `t` as a plain substring.
pub open spec fn contains_seq(t: Seq<char>, k: Seq<char>) -> bool {
    exists|i: int| contains_at(t, k, i)
}

/// The keyword `k` occurs in `t` bounded by a space on at least one side:
/// as `" k"` or as `"k "`.
pub open spec fn word_bounded_spec(t: Seq<char>, k: Seq<char>) -> bool {
    contains_seq(t, seq![' '] + k) || contains_seq(t, k + seq![' '])
}

/// `t` holds no space character.
pub open spec fn no_space(t: Seq<char>) -> bool {
    forall|i: int| 0 <= i < t.len() ==> t[i] != ' '
}

/// `t` with every occurrence of `k` removed, scanning left to right and
/// never re-examining the characters of a removed occurrence (the semantics
/// of replacing each occurrence by the empty string in one pass).
pub open spec fn remove_all_spec(s: Seq<char>, k: Seq<char>) -> Seq<char>
    decreases s.len(),
{
    if k.len() == 0 {
        s
    } else if s.len() < k.len() {
        s
    } else if s.subrange(0, k.len() as int) == k {
        remove_all_spec(s.skip(k.len() as int), k)
    } else {
        seq![s[0]] + remove_all_spec(s.skip(1), k)
    }
}

/// `s` with every space character removed.
pub open spec fn strip_spaces(s: Seq<char>) -> Seq<char>
    decreases s.len(),
{
    if s.len() == 0 {
        Seq::empty()
    } else if s[0] == ' ' {
        strip_spaces(s.drop_first())
    } else {
        seq![s[0]] + strip_spaces(s.drop_first())
    }
}

/// A keyword that occurs in `t` is no longer than `t`.
pub proof fn lemma_contains_len(t: Seq<char>, k: Seq<char>)
    requires
        contains_seq(t, k),
    ensures
        k.len() <= t.len(),
{
    let i = choose|i: int| contains_at(t, k, i);
}

/// Removing a keyword that does not occur leaves the text unchanged.
pub proof fn lemma_remove_all_absent(s: Seq<char>, k: Seq<char>)
    requires
        !contains_seq(s, k),
    ensures
        remove_all_spec(s, k) == s,
    decreases s.len(),
{
    if k.len() == 0 {
        assert(s.subrange(0, 0) =~= k);
        assert(contains_at(s, k, 0));
    } else if s.len() < k.len() {
    } else if s.subrange(0, k.len() as int) == k {
        assert(contains_at(s, k, 0));
    } else {
        assert(!contains_seq(s.skip(1), k)) by {
            if contains_seq(s.skip(1), k) {
                let i = choose|i: int| contains_at(s.skip(1), k, i);
                assert(s.subrange(i + 1, i + 1 + k.len() as int) =~= s.skip(1).subrange(
                    i,
                    i + k.len() as int,
                ));
                assert(contains_at(s, k, i + 1));
            }
        }
        lemma_remove_all_absent(s.skip(1), k);
        assert(seq![s[0]] + s.skip(1) =~= s);
    }
}

/// A text that holds an occurrence of a keyword with a space in it holds a
/// space itself.
pub proof fn lemma_contains_passes_space(t: Seq<char>, k: Seq<char>, j: int)
    requires
        contains_seq(t, k),
        0 <= j < k.len(),
        k[j] == ' ',
    ensures
        !no_space(t),
{
    let i = choose|i: int| contains_at(t, k, i);
    assert(t.subrange(i, i + k.len() as int)[j] == t[i + j]);
    assert(t[i + j] == ' ');
}

/// No keyword is word-bounded in a text without spaces.
pub proof fn lemma_no_space_not_word_bounded(t: Seq<char>, k: Seq<char>)
    requires
        no_space(t),
    ensures
        !word_bounded_spec(t, k),
{
    if contains_seq(t, seq![' '] + k) {
        lemma_contains_passes_space(t, seq![' '] + k, 0);
    }
    if contains_seq(t, k + seq![' ']) {
        lemma_contains_passes_space(t, k + seq![' '], k.len() as int);
    }
}

/// Stripping spaces from a text without spaces leaves it unchanged.
pub proof fn lemma_strip_spaces_identity(s: Seq<char>)
    requires
        no_space(s),
    ensures
        strip_spaces(s) == s,
    decreases s.len(),
{
    if s.len() == 0 {
        assert(strip_spaces(s) =~= s);
    } else {
        assert(no_space(s.drop_first())) by {
            assert(forall|i: int|
                0 <= i < s.drop_first().len() ==> s.drop_first()[i] == s[i + 1]);
        }
        lemma_strip_spaces_identity(s.drop_first());
        assert(seq![s[0]] + s.drop_first() =~= s);
    }
}

/// The output of space stripping holds no space.
pub proof fn lemma_strip_spaces_no_space(s: Seq<char>)
    ensures
        no_space(strip_spaces(s)),
    decreases s.len(),
{
    if s.len() == 0 {
    } else if s[0] == ' ' {
        lemma_strip_spaces_no_space(s.drop_first());
    } else {
        lemma_strip_spaces_no_space(s.drop_first());
        let r = seq![s[0]] + strip_spaces(s.drop_first());
        assert(forall|i: int| 0 <= i < r.len() ==> r[i] != ' ') by {
            assert(forall|i: int|
                1 <= i < r.len() ==> r[i] == strip_spaces(s.drop_first())[i - 1]);
        }
    }
}

/// The characters of a string as a vector, in order.
pub fn to_chars(s: &str) -> (v: Vec<char>)
    ensures
        v@ == s@,
{
    let n = s.unicode_len();
    let mut v: Vec<char> = Vec::new();
    let mut i: usize = 0;
    while i < n
        invariant
            n == s@.len(),
            i <= n,
            v@ == s@.subrange(0, i as int),
        decreases n - i,
    {
        let c = s.get_char(i);
        v.push(c);
        proof {
            assert(v@ =~= s@.subrange(0, i as int + 1));
        }
        i = i + 1;
    }
    proof {
        assert(s@.subrange(0, s@.len() as int) =~= s@);
    }
    v
}

/// Whether the keyword occurs in the text starting exactly at index `i`.
fn matches_at(text: &Vec<char>, i: usize, kw: &str) -> (r: bool)
    requires
        i + kw@.len() <= text@.len(),
    ensures
        r == contains_at(text@, kw@, i as int),
{
    let kw_len = kw.unicode_len();
    proof {
        assert(text.len() == text@.len());
    }
    let mut j: usize = 0;
    while j < kw_len
        invariant
            kw_len == kw@.len(),
            i + kw@.len() <= text@.len(),
            text@.len() <= usize::MAX,
            j <= kw_len,
            forall|m: int| 0 <= m < j ==> text@[i + m] == kw@[m],
        decreases kw_len - j,
    {
        let c = kw.get_char(j);
        if text[i + j] != c {
            proof {
                assert(text@.subrange(i as int, i + kw@.len() as int)[j as int] == text@[i + j]);
            }
            return false;
        }
        j = j + 1;
    }
    proof {
        assert(text@.subrange(i as int, i + kw@.len() as int) =~= kw@);
    }
    true
}

/// Whether the keyword occurs anywhere in the text as a plain substring.
pub fn contains_sub(text: &Vec<char>, kw: &str) -> (r: bool)
    requires
        kw@.len() >= 1,
    ensures
        r == contains_seq(text@, kw@),
{
    let kw_len = kw.unicode_len();
    if kw_len > text.len() {
        proof {
            if contains_seq(text@, kw@) {
                lemma_contains_len(text@, kw@);
            }
        }
        return false;
    }
    let end = text.len() - kw_len;
    let mut i: usize = 0;
    while i <= end
        invariant
            kw_len == kw@.len(),
            kw@.len() >= 1,
            end == text@.len() - kw@.len(),
            text@.len() <= usize::MAX,
            i <= end + 1,
            forall|m: int| 0 <= m < i ==> !contains_at(text@, kw@, m),
        decreases end + 1 - i,
    {
        if matches_at(text, i, kw) {
            return true;
        }
        i = i + 1;
    }
    proof {
        assert(forall|m: int| !contains_at(text@, kw@, m)) by {
            assert(forall|m: int| m > end ==> !contains_at(text@, kw@, m));
        }
    }
    false
}

/// Whether the keyword occurs in the text bounded by a space on at least one
/// side.
pub fn word_bounded(text: &Vec<char>, kw: &str) -> (r: bool)
    ensures
        r == word_bounded_spec(text@, kw@),
{
    let before = String::from_str(" ").concat(kw);
    let after = String::from_str(kw).concat(" ");
    proof {
        reveal_strlit(" ");
        assert(" "@ =~= seq![' ']);
        assert(before@ =~= seq![' '] + kw@);
        assert(after@ =~= kw@ + seq![' ']);
    }
    let r1 = contains_sub(text, before.as_str());
    let r2 = contains_sub(text, after.as_str());
    r1 || r2
}

/// The text with every occurrence of the keyword removed, scanning left to
/// right.
pub fn remove_all(text: &Vec<char>, kw: &str) -> (out: Vec<char>)
    requires
        kw@.len() >= 1,
    ensures
        out@ == remove_all_spec(text@, kw@),
{
    let kw_len = kw.unicode_len();
    let mut out: Vec<char> = Vec::new();
    let mut i: usize = 0;
    proof {
        assert(text@.skip(0) =~= text@);
    }
    while i < text.len()
        invariant
            kw_len == kw@.len(),
            kw@.len() >= 1,
            i <= text@.len(),
            remove_all_spec(text@, kw@) == out@ + remove_all_spec(text@.skip(i as int), kw@),
        decreases text@.len() - i,
    {
        if kw_len <= text.len() - i && matches_at(text, i, kw) {
            proof {
                let rest = text@.skip(i as int);
                assert(rest.subrange(0, kw@.len() as int) =~= text@.subrange(
                    i as int,
                    i + kw@.len() as int,
                ));
                assert(rest.skip(kw@.len() as int) =~= text@.skip(i + kw@.len()));
            }
            i = i + kw_len;
        } else {
            proof {
                let rest = text@.skip(i as int);
                if rest.len() >= kw@.len() {
                    assert(rest.subrange(0, kw@.len() as int) =~= text@.subrange(
                        i as int,
                        i + kw@.len() as int,
                    ));
                    assert(!(rest.subrange(0, kw@.len() as int) == kw@));
                }
                assert(rest.skip(1) =~= text@.skip(i as int + 1));
                assert(rest[0] == text@[i as int]);
                assert((out@ + seq![text@[i as int]]) + remove_all_spec(
                    text@.skip(i as int + 1),
                    kw@,
                ) =~= out@ + (seq![text@[i as int]] + remove_all_spec(
                    text@.skip(i as int + 1),
                    kw@,
                )));
            }
            out.push(text[i]);
            i = i + 1;
        }
    }
    proof {
        assert(text@.skip(i as int) =~= Seq::<char>::empty());
        assert(out@ + Seq::<char>::empty() =~= out@);
    }
    out
}

/// The text with every space character removed.
pub fn strip_spaces_exec(text: &Vec<char>) -> (out: Vec<char>)
    ensures
        out@ == strip_spaces(text@),
{
    let mut out: Vec<char> = Vec::new();
    let mut i: usize = 0;
    proof {
        assert(text@.skip(0) =~= text@);
    }
    while i < text.len()
        invariant
            i <= text@.len(),
            strip_spaces(text@) == out@ + strip_spaces(text@.skip(i as int)),
        decreases text@.len() - i,
    {
        proof {
            let rest = text@.skip(i as int);
            assert(rest.drop_first() =~= text@.skip(i as int + 1));
            assert(rest[0] == text@[i as int]);
            if text@[i as int] != ' ' {
                assert((out@ + seq![text@[i as int]]) + strip_spaces(text@.skip(i as int + 1))
                    =~= out@ + (seq![text@[i as int]] + strip_spaces(text@.skip(i as int + 1))));
            }
        }
        if text[i] != ' ' {
            out.push(text[i]);
        }
        i = i + 1;
    }
    proof {
        assert(text@.skip(i as int) =~= Seq::<char>::empty());
        assert(out@ + Seq::<char>::empty() =~= out@);
    }
    out
}

} // verus!
