//! Verified text helpers shared by the library: character-exact string
//! equality, whitespace trimming, trailing-slash stripping and
//! concatenation, each specified over `Seq<char>` views.

use vstd::prelude::*;

verus! {

// ---------------------------------------------------------------------------
// Character classification, trusted.
// ---------------------------------------------------------------------------

/// Whether `c` counts as whitespace for `char::is_whitespace`.
pub uninterp spec fn whitespace_char(c: char) -> bool;

/// Relies on `char::is_whitespace`: whether a character has the Unicode
/// `White_Space` property, a function of the character alone.
pub assume_specification[ char::is_whitespace ](c: char) -> (r: bool)
    ensures
        r == whitespace_char(c),
;

/// Whether `c` counts as uppercase for `char::is_uppercase`.
pub uninterp spec fn uppercase_char(c: char) -> bool;

/// Relies on `char::is_uppercase`: whether a character has the Unicode
/// `Uppercase` property, a function of the character alone.
pub assume_specification[ char::is_uppercase ](c: char) -> (r: bool)
    ensures
        r == uppercase_char(c),
;

/// Whether `c` counts as lowercase for `char::is_lowercase`.
pub uninterp spec fn lowercase_char(c: char) -> bool;

/// Relies on `char::is_lowercase`: whether a character has the Unicode
/// `Lowercase` property, a function of the character alone.
pub assume_specification[ char::is_lowercase ](c: char) -> (r: bool)
    ensures
        r == lowercase_char(c),
;

// ---------------------------------------------------------------------------
// String equality.
// ---------------------------------------------------------------------------

/// Character-by-character string comparison.
pub fn str_eq(a: &str, b: &str) -> (r: bool)
    ensures
        r == (a@ == b@),
{
    let alen = a.unicode_len();
    let blen = b.unicode_len();
    if alen != blen {
        return false;
    }
    let mut i: usize = 0;
    while i < alen
        invariant
            alen == a@.len(),
            blen == b@.len(),
            alen == blen,
            i <= alen,
            forall|k: int| 0 <= k < i ==> a@[k] == b@[k],
        decreases alen - i,
    {
        if a.get_char(i) != b.get_char(i) {
            return false;
        }
        i += 1;
    }
    proof {
        assert(a@ =~= b@);
    }
    true
}

// ---------------------------------------------------------------------------
// Longest prefix / suffix satisfying a predicate.
// ---------------------------------------------------------------------------

/// Length of the longest prefix of `s` whose characters all satisfy `p`.
pub open spec fn prefix_len_where(s: Seq<char>, p: spec_fn(char) -> bool) -> int
    decreases s.len(),
{
    if s.len() == 0 || !p(s[0]) {
        0
    } else {
        1 + prefix_len_where(s.subrange(1, s.len() as int), p)
    }
}

/// Length of the longest suffix of `s` whose characters all satisfy `p`.
pub open spec fn suffix_len_where(s: Seq<char>, p: spec_fn(char) -> bool) -> int
    decreases s.len(),
{
    if s.len() == 0 || !p(s[s.len() - 1]) {
        0
    } else {
        1 + suffix_len_where(s.subrange(0, s.len() - 1), p)
    }
}

/// `prefix_len_where` is the unique cut: everything before it satisfies
/// `p`, and the character at it (if any) does not.
pub proof fn lemma_prefix_len_where_unique(s: Seq<char>, p: spec_fn(char) -> bool, i: int)
    requires
        0 <= i <= s.len(),
        forall|k: int| 0 <= k < i ==> p(s[k]),
        i < s.len() ==> !p(s[i]),
    ensures
        prefix_len_where(s, p) == i,
    decreases s.len(),
{
    if i == 0 {
    } else {
        assert(p(s[0]));
        let t = s.subrange(1, s.len() as int);
        assert(forall|k: int| 0 <= k < i - 1 ==> t[k] == s[k + 1]);
        lemma_prefix_len_where_unique(t, p, i - 1);
    }
}

/// `suffix_len_where` is the unique cut from the end: everything at or
/// after it satisfies `p`, and the character just before it (if any) does
/// not.
pub proof fn lemma_suffix_len_where_unique(s: Seq<char>, p: spec_fn(char) -> bool, q: int)
    requires
        0 <= q <= s.len(),
        forall|k: int| s.len() - q <= k < s.len() ==> p(s[k]),
        q < s.len() ==> !p(s[s.len() - 1 - q]),
    ensures
        suffix_len_where(s, p) == q,
    decreases s.len(),
{
    if q == 0 {
    } else {
        assert(p(s[s.len() - 1]));
        let t = s.subrange(0, s.len() - 1);
        assert(forall|k: int| 0 <= k < t.len() ==> t[k] == s[k]);
        lemma_suffix_len_where_unique(t, p, q - 1);
    }
}

/// Appending distinct suffixes to one prefix yields distinct strings.
pub proof fn lemma_append_right_injective(s: Seq<char>, f1: Seq<char>, f2: Seq<char>)
    requires
        f1 != f2,
    ensures
        s + f1 != s + f2,
{
    if f1.len() == f2.len() {
        if forall|i: int| 0 <= i < f1.len() ==> f1[i] == f2[i] {
            assert(f1 =~= f2);
        }
        let i = choose|i: int| 0 <= i < f1.len() && f1[i] != f2[i];
        assert((s + f1)[s.len() + i] == f1[i]);
        assert((s + f2)[s.len() + i] == f2[i]);
    } else {
        assert((s + f1).len() != (s + f2).len());
    }
}

// ---------------------------------------------------------------------------
// Trimming.
// ---------------------------------------------------------------------------

/// The whitespace predicate as a value, so that every use names the same
/// function.
pub open spec fn is_ws() -> spec_fn(char) -> bool {
    |c: char| whitespace_char(c)
}

/// `s` with leading and trailing whitespace removed.
pub open spec fn spec_trim(s: Seq<char>) -> Seq<char> {
    let i = prefix_len_where(s, is_ws());
    if i == s.len() {
        Seq::empty()
    } else {
        s.subrange(i, s.len() - suffix_len_where(s, is_ws()))
    }
}

/// Remove leading and trailing whitespace.
pub fn trim(s: &str) -> (r: String)
    ensures
        r@ == spec_trim(s@),
{
    let len = s.unicode_len();
    let mut i: usize = 0;
    while i < len && s.get_char(i).is_whitespace()
        invariant
            len == s@.len(),
            i <= len,
            forall|k: int| 0 <= k < i ==> whitespace_char(s@[k]),
        decreases len - i,
    {
        i += 1;
    }
    proof {
        lemma_prefix_len_where_unique(s@, is_ws(), i as int);
    }
    if i == len {
        return String::new();
    }
    let mut j: usize = len;
    while j > i + 1 && s.get_char(j - 1).is_whitespace()
        invariant
            len == s@.len(),
            i < len,
            !whitespace_char(s@[i as int]),
            i + 1 <= j <= len,
            forall|k: int| j <= k < len ==> whitespace_char(s@[k]),
        decreases j,
    {
        j -= 1;
    }
    proof {
        if j == i + 1 && whitespace_char(s@[j - 1]) {
            assert(false);
        }
        lemma_suffix_len_where_unique(s@, is_ws(), len - j);
    }
    let sub = s.substring_char(i, j);
    sub.to_owned()
}

// ---------------------------------------------------------------------------
// Trailing-slash stripping.
// ---------------------------------------------------------------------------

/// The slash predicate as a value.
pub open spec fn is_slash() -> spec_fn(char) -> bool {
    |c: char| c == '/'
}

/// `s` with every trailing `'/'` removed.
pub open spec fn spec_strip_trailing_slashes(s: Seq<char>) -> Seq<char> {
    s.subrange(0, s.len() - suffix_len_where(s, is_slash()))
}

/// Remove every trailing `'/'`.
pub fn strip_trailing_slashes(s: &str) -> (r: String)
    ensures
        r@ == spec_strip_trailing_slashes(s@),
{
    let len = s.unicode_len();
    let mut j: usize = len;
    while j > 0 && s.get_char(j - 1) == '/'
        invariant
            len == s@.len(),
            j <= len,
            forall|k: int| j <= k < len ==> s@[k] == '/',
        decreases j,
    {
        j -= 1;
    }
    proof {
        lemma_suffix_len_where_unique(s@, is_slash(), len - j);
    }
    let sub = s.substring_char(0, j);
    sub.to_owned()
}

// ---------------------------------------------------------------------------
// Concatenation.
// ---------------------------------------------------------------------------

/// The characters of `parts[i..]`, joined in order.
pub open spec fn concat_views_from(parts: Seq<String>, i: int) -> Seq<char>
    decreases parts.len() - i,
{
    if i < 0 || i >= parts.len() {
        Seq::empty()
    } else {
        parts[i]@ + concat_views_from(parts, i + 1)
    }
}

/// The characters of all of `parts`, joined in order.
pub open spec fn concat_views(parts: Seq<String>) -> Seq<char> {
    concat_views_from(parts, 0)
}

/// Join all parts into one string, in order.
pub fn concat_all(parts: &Vec<String>) -> (r: String)
    ensures
        r@ == concat_views(parts@),
{
    let mut acc = String::new();
    let mut i: usize = 0;
    while i < parts.len()
        invariant
            i <= parts@.len(),
            acc@ + concat_views_from(parts@, i as int) == concat_views(parts@),
        decreases parts@.len() - i,
    {
        let ghost acc0 = acc@;
        acc.append(parts[i].as_str());
        proof {
            assert((acc0 + parts@[i as int]@) + concat_views_from(parts@, i + 1) =~= acc0
                + (parts@[i as int]@ + concat_views_from(parts@, i + 1)));
        }
        i += 1;
    }
    proof {
        assert(acc@ + concat_views_from(parts@, i as int) =~= acc@);
    }
    acc
}

} // verus!
