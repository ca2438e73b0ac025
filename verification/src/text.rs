//! Verified string utilities: substring search, literal replacement,
//! splitting, trimming, joining and decimal rendering.
//!
//! All executable functions are specified against `Seq<char>` models of the
//! strings involved.

use vstd::prelude::*;

verus! {

/// `pat` occurs in `s` starting at index `i`.
pub open spec fn occurs_at(s: Seq<char>, pat: Seq<char>, i: int) -> bool {
    0 <= i && i + pat.len() <= s.len() && s.subrange(i, i + pat.len() as int) == pat
}

/// Index of the leftmost occurrence of `pat` in `s` at or after `i`, if any.
pub open spec fn find_from(s: Seq<char>, pat: Seq<char>, i: int) -> Option<int>
    decreases s.len() - i,
    via find_from_decreases
{
    if i < 0 || i + pat.len() > s.len() {
        None
    } else if occurs_at(s, pat, i) {
        Some(i)
    } else {
        find_from(s, pat, i + 1)
    }
}

#[via_fn]
proof fn find_from_decreases(s: Seq<char>, pat: Seq<char>, i: int) {
    if !(i < 0 || i + pat.len() > s.len()) && !occurs_at(s, pat, i) && pat.len() == 0 {
        assert(s.subrange(i, i + pat.len() as int) =~= pat);
    }
}

/// Index of the leftmost occurrence of `pat` in `s`, if any.
pub open spec fn find_spec(s: Seq<char>, pat: Seq<char>) -> Option<int> {
    find_from(s, pat, 0)
}

/// `s` has at least one occurrence of `pat`.
pub open spec fn contains_seq(s: Seq<char>, pat: Seq<char>) -> bool {
    find_spec(s, pat) is Some
}

/// A found index is in range, carries a real occurrence, and is the leftmost
/// one at or after the starting point.
pub proof fn lemma_find_from_some(s: Seq<char>, pat: Seq<char>, i: int)
    ensures
        find_from(s, pat, i) matches Some(j) ==> i <= j && occurs_at(s, pat, j),
    decreases s.len() - i,
{
    if !(i < 0 || i + pat.len() > s.len()) && !occurs_at(s, pat, i) {
        assert(pat.len() > 0) by {
            if pat.len() == 0 {
                assert(s.subrange(i, i + pat.len() as int) =~= pat);
            }
        }
        lemma_find_from_some(s, pat, i + 1);
    }
}

/// Character-by-character equality of two string slices.
pub fn str_eq(a: &str, b: &str) -> (r: bool)
    ensures
        r == (a@ == b@),
{
    let alen = a.unicode_len();
    let blen = b.unicode_len();
    if alen != blen {
        return false;
    }
    let mut i: usize = 0;
    while i < alen
        invariant
            alen == a@.len(),
            blen == b@.len(),
            alen == blen,
            i <= alen,
            forall|j: int| 0 <= j < i ==> a@[j] == b@[j],
        decreases alen - i,
    {
        if a.get_char(i) != b.get_char(i) {
            return false;
        }
        i += 1;
    }
    proof {
        assert(a@ =~= b@);
    }
    true
}

/// `pat` matches `s` at position `i`.
fn matches_at(s: &str, pat: &str, i: usize) -> (r: bool)
    requires
        i + pat@.len() <= s@.len(),
    ensures
        r == occurs_at(s@, pat@, i as int),
{
    let slen = s.unicode_len();
    let plen = pat.unicode_len();
    let mut j: usize = 0;
    while j < plen
        invariant
            slen == s@.len(),
            plen == pat@.len(),
            i + plen <= slen,
            j <= plen,
            forall|k: int| 0 <= k < j ==> s@[i + k] == pat@[k],
        decreases plen - j,
    {
        if s.get_char(i + j) != pat.get_char(j) {
            proof {
                assert(s@.subrange(i as int, i + pat@.len() as int) != pat@) by {
                    if s@.subrange(i as int, i + pat@.len() as int) == pat@ {
                        assert(s@.subrange(i as int, i + pat@.len() as int)[j as int]
                            == s@[i + j]);
                    }
                }
            }
            return false;
        }
        j += 1;
    }
    proof {
        assert(s@.subrange(i as int, i + pat@.len() as int) =~= pat@);
    }
    true
}

/// Leftmost occurrence of `pat` in `s`, scanning from the start.
pub fn find(s: &str, pat: &str) -> (r: Option<usize>)
    ensures
        r matches Some(i) ==> find_spec(s@, pat@) == Some(i as int),
        r is None ==> find_spec(s@, pat@) is None,
{
    let slen = s.unicode_len();
    let plen = pat.unicode_len();
    if plen > slen {
        return None;
    }
    if plen == 0 {
        proof {
            assert(s@.subrange(0, 0) =~= pat@);
        }
        return Some(0);
    }
    let mut i: usize = 0;
    while i <= slen - plen
        invariant
            slen == s@.len(),
            plen == pat@.len(),
            0 < plen <= slen,
            i <= slen - plen + 1,
            find_from(s@, pat@, 0) == find_from(s@, pat@, i as int),
        decreases slen - i,
    {
        if matches_at(s, pat, i) {
            return Some(i);
        }
        i += 1;
    }
    None
}

/// Result of replacing, left to right and without rescanning replaced text,
/// every occurrence of `pat` in `s` by `val`; `s` itself when `pat` is empty
/// or absent.
pub open spec fn replace_spec(s: Seq<char>, pat: Seq<char>, val: Seq<char>) -> Seq<char>
    decreases s.len(),
    via replace_spec_decreases
{
    if pat.len() == 0 {
        s
    } else {
        match find_spec(s, pat) {
            Option::None => s,
            Option::Some(i) => s.subrange(0, i) + val + replace_spec(
                s.subrange(i + pat.len() as int, s.len() as int),
                pat,
                val,
            ),
        }
    }
}

#[via_fn]
proof fn replace_spec_decreases(s: Seq<char>, pat: Seq<char>, val: Seq<char>) {
    if pat.len() > 0 {
        lemma_find_from_some(s, pat, 0);
    }
}

/// A string without any occurrence of the pattern is left unchanged.
pub proof fn lemma_replace_absent(s: Seq<char>, pat: Seq<char>, val: Seq<char>)
    requires
        !contains_seq(s, pat),
    ensures
        replace_spec(s, pat, val) == s,
{
}

/// The search finds something at or before any occurrence that lies at or
/// after its starting point.
pub proof fn lemma_find_from_complete(s: Seq<char>, pat: Seq<char>, i: int, j: int)
    requires
        0 <= i <= j,
        occurs_at(s, pat, j),
    ensures
        find_from(s, pat, i) is Some,
    decreases j - i,
{
    if i < j {
        lemma_find_from_complete(s, pat, i + 1, j);
    }
}

/// A string with an occurrence of `pat` contains `pat`.
pub proof fn lemma_contains_when_occurs(s: Seq<char>, pat: Seq<char>, j: int)
    requires
        occurs_at(s, pat, j),
    ensures
        contains_seq(s, pat),
{
    lemma_find_from_complete(s, pat, 0, j);
}

/// An occurrence within the left part of a concatenation is an occurrence
/// of the whole.
pub proof fn lemma_occurs_in_prefix(a: Seq<char>, b: Seq<char>, pat: Seq<char>, j: int)
    requires
        occurs_at(a, pat, j),
    ensures
        occurs_at(a + b, pat, j),
{
    assert((a + b).subrange(j, j + pat.len() as int) =~= a.subrange(j, j + pat.len() as int));
}

/// An occurrence within the right part of a concatenation is an occurrence
/// of the whole, shifted by the left part's length.
pub proof fn lemma_occurs_in_suffix(a: Seq<char>, b: Seq<char>, pat: Seq<char>, j: int)
    requires
        occurs_at(b, pat, j),
    ensures
        occurs_at(a + b, pat, a.len() + j),
{
    assert((a + b).subrange(a.len() + j, a.len() + j + pat.len() as int) =~= b.subrange(
        j,
        j + pat.len() as int,
    ));
}

/// The shape of a well-formed placeholder token: `${`, an interior free of
/// `$` and `}`, and a closing `}`.
pub open spec fn is_token(t: Seq<char>) -> bool {
    &&& t.len() >= 3
    &&& t[0] == '$'
    &&& t[1] == '{'
    &&& t[t.len() - 1] == '}'
    &&& forall|k: int| 1 <= k < t.len() ==> t[k] != '$'
    &&& forall|k: int| 1 <= k < t.len() - 1 ==> t[k] != '}'
}

/// Occurrences of two distinct well-formed tokens never overlap: a token
/// starts with the only `$` it holds and ends with the only `}`, so one
/// cannot begin or end inside the other.
pub proof fn lemma_tokens_do_not_overlap(
    s: Seq<char>,
    u: Seq<char>,
    pat: Seq<char>,
    j: int,
    i: int,
)
    requires
        is_token(u),
        is_token(pat),
        u != pat,
        occurs_at(s, u, j),
        occurs_at(s, pat, i),
    ensures
        j + u.len() <= i || i + pat.len() <= j,
{
    let ul = u.len() as int;
    let pl = pat.len() as int;
    if !(j + ul <= i || i + pl <= j) {
        assert(s.subrange(j, j + ul) == u);
        assert(s.subrange(i, i + pl) == pat);
        if j < i {
            // `pat` would start inside `u`, but `u` has no interior `$`.
            assert(u[i - j] == s.subrange(j, j + ul)[i - j]);
            assert(pat[0] == s.subrange(i, i + pl)[0]);
            assert(u[i - j] == '$');
            assert(false);
        } else if i < j {
            // `u` would start inside `pat`, but `pat` has no interior `$`.
            assert(pat[j - i] == s.subrange(i, i + pl)[j - i]);
            assert(u[0] == s.subrange(j, j + ul)[0]);
            assert(pat[j - i] == '$');
            assert(false);
        } else {
            if ul == pl {
                assert(u =~= pat);
                assert(false);
            } else if ul < pl {
                // `u` would close inside `pat`, but `pat` has no interior `}`.
                assert(u[ul - 1] == s.subrange(j, j + ul)[ul - 1]);
                assert(pat[ul - 1] == s.subrange(i, i + pl)[ul - 1]);
                assert(pat[ul - 1] == '}');
                assert(false);
            } else {
                // `pat` would close inside `u`, but `u` has no interior `}`.
                assert(pat[pl - 1] == s.subrange(i, i + pl)[pl - 1]);
                assert(u[pl - 1] == s.subrange(j, j + ul)[pl - 1]);
                assert(u[pl - 1] == '}');
                assert(false);
            }
        }
    }
}

/// Replacement preserves any distinct well-formed token the string holds:
/// since token occurrences cannot overlap, no occurrence of `u` is
/// destroyed by replacing occurrences of `pat`.
pub proof fn lemma_replace_preserves_token(s: Seq<char>, pat: Seq<char>, val: Seq<char>, u: Seq<char>)
    requires
        is_token(u),
        is_token(pat),
        u != pat,
        contains_seq(s, u),
    ensures
        contains_seq(replace_spec(s, pat, val), u),
    decreases s.len(),
{
    lemma_find_from_some(s, u, 0);
    match find_spec(s, u) {
        Option::None => {},
        Option::Some(j) => {
            match find_spec(s, pat) {
                Option::None => {},
                Option::Some(i) => {
                    lemma_find_from_some(s, pat, 0);
                    lemma_tokens_do_not_overlap(s, u, pat, j, i);
                    let pl = pat.len() as int;
                    let ul = u.len() as int;
                    let n = s.len() as int;
                    let prefix = s.subrange(0, i);
                    let rest = s.subrange(i + pl, n);
                    let tail = replace_spec(rest, pat, val);
                    assert(replace_spec(s, pat, val) == prefix + val + tail);
                    if j + ul <= i {
                        // The occurrence sits wholly in the kept prefix.
                        assert(prefix.subrange(j, j + ul) =~= s.subrange(j, j + ul));
                        assert(occurs_at(prefix, u, j));
                        lemma_occurs_in_prefix(prefix, val + tail, u, j);
                        assert(prefix + (val + tail) =~= prefix + val + tail);
                        lemma_contains_when_occurs(prefix + val + tail, u, j);
                    } else {
                        // The occurrence sits wholly in the remainder.
                        let j2 = j - i - pl;
                        assert(rest.subrange(j2, j2 + ul) =~= s.subrange(j, j + ul));
                        assert(occurs_at(rest, u, j2));
                        lemma_contains_when_occurs(rest, u, j2);
                        lemma_replace_preserves_token(rest, pat, val, u);
                        lemma_find_from_some(tail, u, 0);
                        match find_spec(tail, u) {
                            Option::None => {},
                            Option::Some(j3) => {
                                lemma_occurs_in_suffix(prefix + val, tail, u, j3);
                                assert((prefix + val) + tail =~= prefix + val + tail);
                                lemma_contains_when_occurs(
                                    prefix + val + tail,
                                    u,
                                    (prefix + val).len() + j3,
                                );
                            },
                        }
                    }
                },
            }
        },
    }
}

/// Trimming at the start keeps any occurrence of a pattern that does not
/// start with whitespace.
pub proof fn lemma_trim_start_keeps_occurrence(s: Seq<char>, u: Seq<char>, j: int)
    requires
        u.len() > 0,
        !is_space(u[0]),
        occurs_at(s, u, j),
    ensures
        exists|j2: int| occurs_at(trim_start_spec(s), u, j2),
    decreases s.len(),
{
    let ul = u.len() as int;
    if s.len() > 0 && is_space(s[0]) {
        assert(u[0] == s.subrange(j, j + ul)[0]);
        assert(j >= 1);
        assert(s.skip(1).subrange(j - 1, j - 1 + ul) =~= s.subrange(j, j + ul));
        assert(occurs_at(s.skip(1), u, j - 1));
        lemma_trim_start_keeps_occurrence(s.skip(1), u, j - 1);
        let j2 = choose|j2: int| occurs_at(trim_start_spec(s.skip(1)), u, j2);
        assert(trim_start_spec(s) == trim_start_spec(s.skip(1)));
        assert(occurs_at(trim_start_spec(s), u, j2));
    } else {
        assert(occurs_at(trim_start_spec(s), u, j));
    }
}

/// Trimming at the end keeps any occurrence of a pattern that does not end
/// with whitespace.
pub proof fn lemma_trim_end_keeps_occurrence(s: Seq<char>, u: Seq<char>, j: int)
    requires
        u.len() > 0,
        !is_space(u[u.len() - 1]),
        occurs_at(s, u, j),
    ensures
        exists|j2: int| occurs_at(trim_end_spec(s), u, j2),
    decreases s.len(),
{
    let ul = u.len() as int;
    if s.len() > 0 && is_space(s.last()) {
        assert(u[ul - 1] == s.subrange(j, j + ul)[ul - 1]);
        assert(s[j + ul - 1] == u[ul - 1]);
        assert(j + ul < s.len());
        let t = s.take(s.len() - 1);
        assert(t.subrange(j, j + ul) =~= s.subrange(j, j + ul));
        assert(occurs_at(t, u, j));
        lemma_trim_end_keeps_occurrence(t, u, j);
        let j2 = choose|j2: int| occurs_at(trim_end_spec(t), u, j2);
        assert(trim_end_spec(s) == trim_end_spec(t));
        assert(occurs_at(trim_end_spec(s), u, j2));
    } else {
        assert(occurs_at(trim_end_spec(s), u, j));
    }
}

/// Trimming keeps any contained pattern that neither starts nor ends with
/// whitespace.
pub proof fn lemma_trim_keeps_pattern(s: Seq<char>, u: Seq<char>)
    requires
        u.len() > 0,
        !is_space(u[0]),
        !is_space(u[u.len() - 1]),
        contains_seq(s, u),
    ensures
        contains_seq(trim_spec(s), u),
{
    lemma_find_from_some(s, u, 0);
    match find_spec(s, u) {
        Option::None => {},
        Option::Some(j) => {
            lemma_trim_start_keeps_occurrence(s, u, j);
            let j2 = choose|j2: int| occurs_at(trim_start_spec(s), u, j2);
            lemma_trim_end_keeps_occurrence(trim_start_spec(s), u, j2);
            let j3 = choose|j3: int| occurs_at(trim_end_spec(trim_start_spec(s)), u, j3);
            lemma_contains_when_occurs(trim_spec(s), u, j3);
        },
    }
}

/// Replacing a nonempty pattern in exactly itself yields exactly the value.
pub proof fn lemma_replace_exact(pat: Seq<char>, val: Seq<char>)
    requires
        pat.len() > 0,
    ensures
        replace_spec(pat, pat, val) == val,
{
    assert(pat.subrange(0, pat.len() as int) =~= pat);
    assert(occurs_at(pat, pat, 0));
    assert(find_spec(pat, pat) == Some(0int));
    let rest = pat.subrange(pat.len() as int, pat.len() as int);
    assert(rest.len() == 0);
    assert(find_spec(rest, pat) is None);
    assert(replace_spec(rest, pat, val) == rest);
    assert(replace_spec(pat, pat, val) =~= val);
}

/// Replaces every occurrence of `pat` in `s` by `val`, scanning left to
/// right over the original string.
pub fn replace(s: &str, pat: &str, val: &str) -> (r: String)
    ensures
        r@ == replace_spec(s@, pat@, val@),
    decreases s@.len(),
{
    let slen = s.unicode_len();
    let plen = pat.unicode_len();
    if plen == 0 {
        return s.to_owned();
    }
    match find(s, pat) {
        Option::None => s.to_owned(),
        Option::Some(i) => {
            proof {
                lemma_find_from_some(s@, pat@, 0);
            }
            let mut out = s.substring_char(0, i).to_owned();
            out.append(val);
            let rest = s.substring_char(i + plen, slen);
            let tail = replace(rest, pat, val);
            out.append(tail.as_str());
            out
        },
    }
}

/// Segments of `s` between occurrences of the separator `pat`, in order;
/// `[s]` when `pat` is empty or absent.
pub open spec fn split_spec(s: Seq<char>, pat: Seq<char>) -> Seq<Seq<char>>
    decreases s.len(),
    via split_spec_decreases
{
    if pat.len() == 0 {
        seq![s]
    } else {
        match find_spec(s, pat) {
            Option::None => seq![s],
            Option::Some(i) => seq![s.subrange(0, i)] + split_spec(
                s.subrange(i + pat.len() as int, s.len() as int),
                pat,
            ),
        }
    }
}

#[via_fn]
proof fn split_spec_decreases(s: Seq<char>, pat: Seq<char>) {
    if pat.len() > 0 {
        lemma_find_from_some(s, pat, 0);
    }
}

/// Splits `s` on each occurrence of the separator `pat`, keeping empty
/// segments.
pub fn split(s: &str, pat: &str) -> (r: Vec<String>)
    ensures
        r.deep_view() == split_spec(s@, pat@),
    decreases s@.len(),
{
    let slen = s.unicode_len();
    let plen = pat.unicode_len();
    let mut out: Vec<String> = Vec::new();
    if plen == 0 {
        out.push(s.to_owned());
        proof {
            assert(out.deep_view() =~= split_spec(s@, pat@));
        }
        return out;
    }
    match find(s, pat) {
        Option::None => {
            out.push(s.to_owned());
            proof {
                assert(out.deep_view() =~= split_spec(s@, pat@));
            }
            out
        },
        Option::Some(i) => {
            proof {
                lemma_find_from_some(s@, pat@, 0);
            }
            out.push(s.substring_char(0, i).to_owned());
            let rest = s.substring_char(i + plen, slen);
            let mut tail = split(rest, pat);
            out.append(&mut tail);
            proof {
                assert(out.deep_view() =~= split_spec(s@, pat@));
            }
            out
        },
    }
}

/// The whitespace characters removed by trimming.
pub open spec fn is_space(c: char) -> bool {
    c == ' ' || c == '\t' || c == '\n' || c == '\r'
}

/// `s` without its leading whitespace.
pub open spec fn trim_start_spec(s: Seq<char>) -> Seq<char>
    decreases s.len(),
{
    if s.len() > 0 && is_space(s[0]) {
        trim_start_spec(s.skip(1))
    } else {
        s
    }
}

/// `s` without its trailing whitespace.
pub open spec fn trim_end_spec(s: Seq<char>) -> Seq<char>
    decreases s.len(),
{
    if s.len() > 0 && is_space(s.last()) {
        trim_end_spec(s.take(s.len() - 1))
    } else {
        s
    }
}

/// `s` without leading and trailing whitespace.
pub open spec fn trim_spec(s: Seq<char>) -> Seq<char> {
    trim_end_spec(trim_start_spec(s))
}

fn is_space_char(c: char) -> (r: bool)
    ensures
        r == is_space(c),
{
    c == ' ' || c == '\t' || c == '\n' || c == '\r'
}

/// Removes leading and trailing whitespace from `s`.
pub fn trim(s: &str) -> (r: String)
    ensures
        r@ == trim_spec(s@),
{
    let len = s.unicode_len();
    proof {
        assert(s@.skip(0) =~= s@);
    }
    let mut a: usize = 0;
    while a < len && is_space_char(s.get_char(a))
        invariant
            len == s@.len(),
            a <= len,
            trim_start_spec(s@) == trim_start_spec(s@.skip(a as int)),
        decreases len - a,
    {
        proof {
            assert(s@.skip(a as int).skip(1) =~= s@.skip(a + 1));
        }
        a += 1;
    }
    proof {
        assert(trim_start_spec(s@) == s@.skip(a as int));
        assert(s@.skip(a as int) =~= s@.subrange(a as int, len as int));
    }
    let mut b: usize = len;
    while b > a && is_space_char(s.get_char(b - 1))
        invariant
            len == s@.len(),
            a <= b <= len,
            trim_start_spec(s@) == s@.subrange(a as int, len as int),
            trim_end_spec(s@.subrange(a as int, len as int)) == trim_end_spec(
                s@.subrange(a as int, b as int),
            ),
        decreases b,
    {
        proof {
            let mid = s@.subrange(a as int, b as int);
            assert(mid.last() == s@[b - 1]);
            assert(mid.take(mid.len() - 1) =~= s@.subrange(a as int, b - 1));
        }
        b -= 1;
    }
    proof {
        assert(trim_end_spec(s@.subrange(a as int, b as int)) == s@.subrange(a as int, b as int));
    }
    s.substring_char(a, b).to_owned()
}

/// The decimal digit character for `d`.
pub open spec fn digit_char(d: int) -> char {
    if d == 0 {
        '0'
    } else if d == 1 {
        '1'
    } else if d == 2 {
        '2'
    } else if d == 3 {
        '3'
    } else if d == 4 {
        '4'
    } else if d == 5 {
        '5'
    } else if d == 6 {
        '6'
    } else if d == 7 {
        '7'
    } else if d == 8 {
        '8'
    } else {
        '9'
    }
}

/// Decimal rendering of a non-negative integer, most significant digit
/// first, without leading zeros (a single zero for 0).
pub open spec fn dec_spec(n: int) -> Seq<char>
    decreases n,
{
    if n < 10 {
        seq![digit_char(n)]
    } else {
        dec_spec(n / 10) + seq![digit_char(n % 10)]
    }
}

fn digit_str(d: u32) -> (r: &'static str)
    requires
        d < 10,
    ensures
        r@ == seq![digit_char(d as int)],
{
    let r: &'static str = if d == 0 {
        "0"
    } else if d == 1 {
        "1"
    } else if d == 2 {
        "2"
    } else if d == 3 {
        "3"
    } else if d == 4 {
        "4"
    } else if d == 5 {
        "5"
    } else if d == 6 {
        "6"
    } else if d == 7 {
        "7"
    } else if d == 8 {
        "8"
    } else {
        "9"
    };
    proof {
        reveal_strlit("0");
        reveal_strlit("1");
        reveal_strlit("2");
        reveal_strlit("3");
        reveal_strlit("4");
        reveal_strlit("5");
        reveal_strlit("6");
        reveal_strlit("7");
        reveal_strlit("8");
        reveal_strlit("9");
        assert(r@ =~= seq![digit_char(d as int)]);
    }
    r
}

fn append_u32(out: &mut String, n: u32)
    ensures
        final(out)@ == old(out)@ + dec_spec(n as int),
    decreases n,
{
    if n >= 10 {
        append_u32(out, n / 10);
    }
    out.append(digit_str(n % 10));
    proof {
        assert(final(out)@ =~= old(out)@ + dec_spec(n as int));
    }
}

/// Renders `n` in decimal.
pub fn u32_to_string(n: u32) -> (r: String)
    ensures
        r@ == dec_spec(n as int),
{
    let mut out = String::new();
    append_u32(&mut out, n);
    proof {
        assert(out@ =~= dec_spec(n as int));
    }
    out
}

/// The parts joined with `sep` between consecutive parts.
pub open spec fn join_with(parts: Seq<Seq<char>>, sep: Seq<char>) -> Seq<char>
    decreases parts.len(),
{
    if parts.len() == 0 {
        Seq::empty()
    } else if parts.len() == 1 {
        parts[0]
    } else {
        join_with(parts.drop_last(), sep) + sep + parts.last()
    }
}

/// Joins the parts with `sep` between consecutive parts.
pub fn join(parts: &Vec<String>, sep: &str) -> (r: String)
    ensures
        r@ == join_with(parts.deep_view(), sep@),
{
    let mut out = String::new();
    let mut i: usize = 0;
    while i < parts.len()
        invariant
            i <= parts@.len(),
            out@ == join_with(parts.deep_view().take(i as int), sep@),
        decreases parts@.len() - i,
    {
        if i > 0 {
            out.append(sep);
        }
        out.append(parts[i].as_str());
        proof {
            let pv = parts.deep_view();
            assert(pv.take(i + 1).drop_last() =~= pv.take(i as int));
            assert(pv.take(i + 1).last() == pv[i as int]);
        }
        i += 1;
    }
    proof {
        assert(parts.deep_view().take(parts@.len() as int) =~= parts.deep_view());
    }
    out
}

} // verus!
