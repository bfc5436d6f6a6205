//! Verified character-level utilities on `&str` and `String`.
//!
//! Every pipeline decision that inspects text (config lines, distribution
//! identifiers, file names, path expansion) goes through these functions,
//! each of which is specified exactly over the character sequences.

use vstd::prelude::*;

verus! {

/// `p` is a prefix of `s`.
pub open spec fn is_prefix(p: Seq<char>, s: Seq<char>) -> bool {
    p.len() <= s.len() && s.take(p.len() as int) == p
}

/// `p` is a suffix of `s`.
pub open spec fn is_suffix(p: Seq<char>, s: Seq<char>) -> bool {
    p.len() <= s.len() && s.skip(s.len() - p.len()) == p
}

/// `sub` occurs somewhere in `s`.
pub open spec fn contains_seq(s: Seq<char>, sub: Seq<char>) -> bool {
    exists|i: int| 0 <= i && i + sub.len() <= s.len() && #[trigger] s.subrange(i, i + sub.len())
        == sub
}

/// Character-for-character equality of two string slices.
pub fn str_eq(a: &str, b: &str) -> (r: bool)
    ensures
        r == (a@ == b@),
{
    let alen = a.unicode_len();
    let blen = b.unicode_len();
    if alen != blen {
        return false;
    }
    let mut i: usize = 0;
    while i < alen
        invariant
            i <= alen,
            alen == a@.len(),
            alen == b@.len(),
            forall|k: int| 0 <= k < i ==> a@[k] == b@[k],
        decreases alen - i,
    {
        if a.get_char(i) != b.get_char(i) {
            return false;
        }
        i += 1;
    }
    proof {
        assert(a@ =~= b@);
    }
    true
}

/// Does `s`, starting at character position `at`, read exactly as `sub`?
pub fn matches_at(s: &str, at: usize, sub: &str) -> (r: bool)
    requires
        at + sub@.len() <= s@.len(),
    ensures
        r == (s@.subrange(at as int, at + sub@.len() as int) == sub@),
{
    let slen = s.unicode_len();
    let blen = sub.unicode_len();
    let mut j: usize = 0;
    while j < blen
        invariant
            j <= blen,
            blen == sub@.len(),
            slen == s@.len(),
            at + blen <= slen,
            forall|k: int| 0 <= k < j ==> s@[at + k] == sub@[k],
        decreases blen - j,
    {
        if s.get_char(at + j) != sub.get_char(j) {
            proof {
                let w = s@.subrange(at as int, at + sub@.len() as int);
                assert(w[j as int] == s@[at + j]);
            }
            return false;
        }
        j += 1;
    }
    proof {
        assert(s@.subrange(at as int, at + sub@.len() as int) =~= sub@);
    }
    true
}

/// Does `s` start with `p`?
pub fn has_prefix(s: &str, p: &str) -> (r: bool)
    ensures
        r == is_prefix(p@, s@),
{
    let slen = s.unicode_len();
    let plen = p.unicode_len();
    if plen > slen {
        return false;
    }
    let r = matches_at(s, 0, p);
    proof {
        assert(s@.subrange(0, p@.len() as int) == s@.take(p@.len() as int));
    }
    r
}

/// Does `s` end with `p`?
pub fn has_suffix(s: &str, p: &str) -> (r: bool)
    ensures
        r == is_suffix(p@, s@),
{
    let slen = s.unicode_len();
    let plen = p.unicode_len();
    if plen > slen {
        return false;
    }
    let r = matches_at(s, slen - plen, p);
    proof {
        assert(s@.subrange(s@.len() - p@.len(), s@.len() - p@.len() + p@.len()) == s@.skip(
            s@.len() - p@.len(),
        ));
    }
    r
}

/// Does `sub` occur anywhere in `s`?
pub fn contains_str(s: &str, sub: &str) -> (r: bool)
    ensures
        r == contains_seq(s@, sub@),
{
    let slen = s.unicode_len();
    let blen = sub.unicode_len();
    if blen > slen {
        return false;
    }
    if blen == 0 {
        proof {
            assert(s@.subrange(0, 0 + sub@.len() as int) =~= sub@);
        }
        return true;
    }
    let mut i: usize = 0;
    while i <= slen - blen
        invariant
            slen == s@.len(),
            blen == sub@.len(),
            0 < blen <= slen,
            i <= slen - blen + 1,
            forall|k: int| 0 <= k < i ==> #[trigger] s@.subrange(k, k + sub@.len()) != sub@,
        decreases slen - i,
    {
        if matches_at(s, i, sub) {
            return true;
        }
        i += 1;
    }
    false
}

/// First occurrence of `c` in `s` at or after position `from`.
pub fn find_char_from(s: &str, from: usize, c: char) -> (r: Option<usize>)
    requires
        from <= s@.len(),
    ensures
        match r {
            Some(j) => from <= j < s@.len() && s@[j as int] == c && forall|k: int|
                from <= k < j ==> s@[k] != c,
            None => forall|k: int| from <= k < s@.len() ==> s@[k] != c,
        },
{
    let slen = s.unicode_len();
    let mut i: usize = from;
    while i < slen
        invariant
            from <= i <= slen,
            slen == s@.len(),
            forall|k: int| from <= k < i ==> s@[k] != c,
        decreases slen - i,
    {
        if s.get_char(i) == c {
            return Some(i);
        }
        i += 1;
    }
    None
}

/// Position of the first occurrence of `c` in `s`, or `s.len()` if none.
pub open spec fn spec_scan_to(s: Seq<char>, c: char) -> int
    decreases s.len(),
{
    if s.len() == 0 {
        0
    } else if s[0] == c {
        0
    } else {
        1 + spec_scan_to(s.skip(1), c)
    }
}

pub proof fn lemma_scan_to_determined(s: Seq<char>, c: char, j: int)
    requires
        0 <= j <= s.len(),
        forall|k: int| 0 <= k < j ==> s[k] != c,
        j < s.len() ==> s[j] == c,
    ensures
        spec_scan_to(s, c) == j,
    decreases s.len(),
{
    if j == 0 {
        if s.len() > 0 {
            assert(s[0] == c);
        }
    } else {
        assert(s[0] != c);
        let t = s.skip(1);
        assert forall|k: int| 0 <= k < j - 1 implies t[k] != c by {
            assert(t[k] == s[k + 1]);
        }
        assert(j - 1 < t.len() ==> t[j - 1] == c) by {
            if j - 1 < t.len() {
                assert(t[j - 1] == s[j]);
            }
        }
        lemma_scan_to_determined(t, c, j - 1);
    }
}

pub proof fn lemma_scan_to_bounds(s: Seq<char>, c: char)
    ensures
        0 <= spec_scan_to(s, c) <= s.len(),
    decreases s.len(),
{
    if s.len() > 0 && s[0] != c {
        lemma_scan_to_bounds(s.skip(1), c);
    }
}

/// `s` with every non-overlapping, left-to-right occurrence of `pat`
/// replaced by `rep`; an empty pattern leaves `s` unchanged.
pub open spec fn spec_replace(s: Seq<char>, pat: Seq<char>, rep: Seq<char>) -> Seq<char>
    decreases s.len(),
{
    if pat.len() == 0 || s.len() < pat.len() {
        s
    } else if s.take(pat.len() as int) == pat {
        rep + spec_replace(s.skip(pat.len() as int), pat, rep)
    } else {
        seq![s[0]] + spec_replace(s.skip(1), pat, rep)
    }
}

/// Replace every occurrence of `pat` in `s` by `rep`, as `str::replace` does.
pub fn replace_all(s: &str, pat: &str, rep: &str) -> (r: String)
    ensures
        r@ == spec_replace(s@, pat@, rep@),
{
    let slen = s.unicode_len();
    let plen = pat.unicode_len();
    if plen == 0 {
        return s.to_owned();
    }
    let mut out = String::new();
    let mut i: usize = 0;
    proof {
        assert(s@.skip(0) =~= s@);
    }
    while i < slen
        invariant
            i <= slen,
            slen == s@.len(),
            plen == pat@.len(),
            plen > 0,
            out@ + spec_replace(s@.skip(i as int), pat@, rep@) == spec_replace(s@, pat@, rep@),
        decreases slen - i,
    {
        let ghost tail = s@.skip(i as int);
        if plen <= slen - i && matches_at(s, i, pat) {
            proof {
                assert(tail.take(pat@.len() as int) =~= s@.subrange(i as int, i + pat@.len() as int));
                assert(tail.skip(pat@.len() as int) =~= s@.skip(i + plen));
            }
            out.append(rep);
            i += plen;
        } else {
            proof {
                if tail.len() < pat@.len() {
                    // the tail is shorter than the pattern: it is kept verbatim,
                    // which agrees with peeling off its first character
                    assert(tail =~= seq![s@[i as int]] + s@.skip(i + 1));
                } else {
                    assert(tail.take(pat@.len() as int) =~= s@.subrange(
                        i as int,
                        i + pat@.len() as int,
                    ));
                    assert(tail.skip(1) =~= s@.skip(i + 1));
                }
            }
            let piece = s.substring_char(i, i + 1);
            proof {
                assert(piece@ =~= seq![s@[i as int]]);
            }
            out.append(piece);
            i += 1;
        }
    }
    proof {
        assert(s@.skip(slen as int) =~= Seq::<char>::empty());
    }
    out
}

/// `s` itself if it already ends in `/`, else `s` with `/` appended.
pub open spec fn spec_with_trailing_slash(s: Seq<char>) -> Seq<char> {
    if s.len() > 0 && s[s.len() - 1] == '/' {
        s
    } else {
        s + seq!['/']
    }
}

/// Normalize a directory path so that it always ends with `/`.
pub fn ensure_trailing_slash(s: &str) -> (r: String)
    ensures
        r@ == spec_with_trailing_slash(s@),
{
    let slash = has_suffix(s, "/");
    let mut out = s.to_owned();
    if !slash {
        out.append("/");
        proof {
            reveal_strlit("/");
            assert("/"@ =~= seq!['/']);
            assert(out@ =~= s@ + seq!['/']);
            if s@.len() > 0 && s@[s@.len() - 1] == '/' {
                assert(s@.skip(s@.len() - 1) =~= seq!['/']);
                assert(false);
            }
        }
    } else {
        proof {
            reveal_strlit("/");
            assert(s@.skip(s@.len() - 1) == "/"@);
            assert(s@.skip(s@.len() - 1)[0] == s@[s@.len() - 1]);
            assert(s@[s@.len() - 1] == '/');
        }
    }
    out
}

/// ASCII whitespace, as it occurs around values in hand-edited files.
pub open spec fn is_ws(c: char) -> bool {
    c == ' ' || c == '\t' || c == '\n' || c == '\r'
}

/// `s` without its leading characters satisfying `p`.
pub open spec fn spec_trim_start(s: Seq<char>, p: spec_fn(char) -> bool) -> Seq<char>
    decreases s.len(),
{
    if s.len() > 0 && p(s[0]) {
        spec_trim_start(s.skip(1), p)
    } else {
        s
    }
}

/// `s` without its trailing characters satisfying `p`.
pub open spec fn spec_trim_end(s: Seq<char>, p: spec_fn(char) -> bool) -> Seq<char>
    decreases s.len(),
{
    if s.len() > 0 && p(s.last()) {
        spec_trim_end(s.drop_last(), p)
    } else {
        s
    }
}

/// `s` without leading and trailing characters satisfying `p`.
pub open spec fn spec_trim(s: Seq<char>, p: spec_fn(char) -> bool) -> Seq<char> {
    spec_trim_end(spec_trim_start(s, p), p)
}

pub proof fn lemma_trim_start_determined(s: Seq<char>, p: spec_fn(char) -> bool, i: int)
    requires
        0 <= i <= s.len(),
        forall|k: int| 0 <= k < i ==> p(s[k]),
        i < s.len() ==> !p(s[i]),
    ensures
        spec_trim_start(s, p) == s.skip(i),
    decreases s.len(),
{
    if i == 0 {
        assert(s.skip(0) =~= s);
    } else {
        assert(p(s[0]));
        let t = s.skip(1);
        assert forall|k: int| 0 <= k < i - 1 implies p(t[k]) by {
            assert(t[k] == s[k + 1]);
        }
        assert(i - 1 < t.len() ==> !p(t[i - 1])) by {
            if i - 1 < t.len() {
                assert(t[i - 1] == s[i]);
            }
        }
        lemma_trim_start_determined(t, p, i - 1);
        assert(t.skip(i - 1) =~= s.skip(i));
    }
}

pub proof fn lemma_trim_end_determined(s: Seq<char>, p: spec_fn(char) -> bool, j: int)
    requires
        0 <= j <= s.len(),
        forall|k: int| j <= k < s.len() ==> p(s[k]),
        j > 0 ==> !p(s[j - 1]),
    ensures
        spec_trim_end(s, p) == s.take(j),
    decreases s.len(),
{
    if j == s.len() {
        if s.len() > 0 {
            assert(!p(s.last()));
        }
        assert(s.take(j) =~= s);
    } else {
        assert(p(s.last()));
        let t = s.drop_last();
        assert forall|k: int| j <= k < t.len() implies p(t[k]) by {
            assert(t[k] == s[k]);
        }
        assert(j > 0 ==> !p(t[j - 1])) by {
            if j > 0 {
                assert(t[j - 1] == s[j - 1]);
            }
        }
        lemma_trim_end_determined(t, p, j);
        assert(t.take(j) =~= s.take(j));
    }
}

/// Scan past the characters accepted by the caller's test; used to trim.
/// Finds the least start and greatest end positions of the kept middle.
fn trim_bounds_ws(s: &str) -> (r: (usize, usize))
    ensures
        ({
            let (i, j) = r;
            &&& 0 <= i <= j <= s@.len()
            &&& forall|k: int| 0 <= k < i ==> is_ws(s@[k])
            &&& (i < s@.len() && i < j ==> !is_ws(s@[i as int]))
            &&& forall|k: int| j <= k < s@.len() ==> is_ws(s@[k])
            &&& (j > i ==> !is_ws(s@[j - 1]))
            &&& (i == j ==> forall|k: int| 0 <= k < s@.len() ==> is_ws(s@[k]))
        }),
{
    let slen = s.unicode_len();
    let mut i: usize = 0;
    let mut found_start = false;
    while !found_start && i < slen
        invariant
            i <= slen,
            slen == s@.len(),
            forall|k: int| 0 <= k < i ==> is_ws(s@[k]),
            found_start ==> i < slen && !is_ws(s@[i as int]),
        decreases slen - i + (if found_start {
            0int
        } else {
            1int
        }),
    {
        let c = s.get_char(i);
        if c == ' ' || c == '\t' || c == '\n' || c == '\r' {
            i += 1;
        } else {
            found_start = true;
        }
    }
    if !found_start {
        return (slen, slen);
    }
    let mut j: usize = slen;
    let mut found_end = false;
    while !found_end && j > i
        invariant
            i <= j <= slen,
            slen == s@.len(),
            i < slen,
            !is_ws(s@[i as int]),
            forall|k: int| j <= k < s@.len() ==> is_ws(s@[k]),
            found_end ==> j > i && !is_ws(s@[j - 1]),
        decreases j + (if found_end {
            0int
        } else {
            1int
        }),
    {
        let c = s.get_char(j - 1);
        if c == ' ' || c == '\t' || c == '\n' || c == '\r' {
            j -= 1;
        } else {
            found_end = true;
        }
    }
    proof {
        if !found_end {
            assert(j == i);
            assert(is_ws(s@[i as int]));
        }
    }
    (i, j)
}

/// `s` with surrounding spaces, tabs and line breaks removed.
pub fn trim_ws(s: &str) -> (r: String)
    ensures
        r@ == spec_trim(s@, |c: char| is_ws(c)),
{
    let (i, j) = trim_bounds_ws(s);
    let mid = s.substring_char(i, j);
    proof {
        let p = |c: char| is_ws(c);
        if i == j {
            lemma_trim_start_determined(s@, p, s@.len() as int);
            assert(s@.skip(s@.len() as int) =~= Seq::<char>::empty());
            lemma_trim_end_determined(Seq::<char>::empty(), p, 0);
            assert(Seq::<char>::empty().take(0) =~= Seq::<char>::empty());
            assert(mid@ =~= Seq::<char>::empty());
        } else {
            lemma_trim_start_determined(s@, p, i as int);
            let t = s@.skip(i as int);
            assert forall|k: int| (j - i) <= k < t.len() implies p(t[k]) by {
                assert(t[k] == s@[k + i]);
            }
            assert(t[j - i - 1] == s@[j - 1]);
            lemma_trim_end_determined(t, p, j - i);
            assert(mid@ =~= t.take(j - i));
        }
    }
    mid.to_owned()
}

/// `s` with surrounding occurrences of `c` removed.
pub fn trim_char(s: &str, c: char) -> (r: String)
    ensures
        r@ == spec_trim(s@, |x: char| x == c),
{
    let ghost p = |x: char| x == c;
    let slen = s.unicode_len();
    let mut i: usize = 0;
    let mut found_start = false;
    while !found_start && i < slen
        invariant
            i <= slen,
            slen == s@.len(),
            forall|k: int| 0 <= k < i ==> s@[k] == c,
            found_start ==> i < slen && s@[i as int] != c,
        decreases slen - i + (if found_start {
            0int
        } else {
            1int
        }),
    {
        if s.get_char(i) == c {
            i += 1;
        } else {
            found_start = true;
        }
    }
    if !found_start {
        proof {
            lemma_trim_start_determined(s@, p, s@.len() as int);
            assert(s@.skip(s@.len() as int) =~= Seq::<char>::empty());
            lemma_trim_end_determined(Seq::<char>::empty(), p, 0);
            assert(Seq::<char>::empty().take(0) =~= Seq::<char>::empty());
        }
        return String::new();
    }
    let mut j: usize = slen;
    let mut found_end = false;
    while !found_end && j > i
        invariant
            i <= j <= slen,
            slen == s@.len(),
            i < slen,
            s@[i as int] != c,
            forall|k: int| j <= k < s@.len() ==> s@[k] == c,
            found_end ==> j > i && s@[j - 1] != c,
        decreases j + (if found_end {
            0int
        } else {
            1int
        }),
    {
        if s.get_char(j - 1) == c {
            j -= 1;
        } else {
            found_end = true;
        }
    }
    proof {
        if !found_end {
            assert(j == i);
            assert(s@[i as int] == c);
        }
    }
    let mid = s.substring_char(i, j);
    proof {
        lemma_trim_start_determined(s@, p, i as int);
        let t = s@.skip(i as int);
        assert forall|k: int| (j - i) <= k < t.len() implies p(t[k]) by {
            assert(t[k] == s@[k + i]);
        }
        assert(t[j - i - 1] == s@[j - 1]);
        lemma_trim_end_determined(t, p, j - i);
        assert(mid@ =~= t.take(j - i));
    }
    mid.to_owned()
}

/// Position of the last occurrence of `c` in `s`, or -1 if none.
pub open spec fn spec_rscan(s: Seq<char>, c: char) -> int
    decreases s.len(),
{
    if s.len() == 0 {
        -1
    } else if s.last() == c {
        s.len() - 1
    } else {
        spec_rscan(s.drop_last(), c)
    }
}

pub proof fn lemma_rscan_determined(s: Seq<char>, c: char, j: int)
    requires
        -1 <= j < s.len(),
        j >= 0 ==> s[j] == c,
        forall|k: int| j < k < s.len() ==> s[k] != c,
    ensures
        spec_rscan(s, c) == j,
    decreases s.len(),
{
    if j == s.len() - 1 {
    } else {
        assert(s.last() != c);
        let t = s.drop_last();
        assert(j >= 0 ==> t[j] == s[j]);
        assert forall|k: int| j < k < t.len() implies t[k] != c by {
            assert(t[k] == s[k]);
        }
        lemma_rscan_determined(t, c, j);
    }
}

/// Last occurrence of `c` in `s`, if any.
pub fn rfind_char(s: &str, c: char) -> (r: Option<usize>)
    ensures
        match r {
            Some(j) => j < s@.len() && spec_rscan(s@, c) == j,
            None => spec_rscan(s@, c) == -1,
        },
{
    let slen = s.unicode_len();
    let mut j: usize = slen;
    let mut found = false;
    while !found && j > 0
        invariant
            j <= slen,
            slen == s@.len(),
            forall|k: int| j <= k < s@.len() ==> s@[k] != c,
            found ==> j > 0 && s@[j - 1] == c,
        decreases j + (if found {
            0int
        } else {
            1int
        }),
    {
        if s.get_char(j - 1) == c {
            found = true;
        } else {
            j -= 1;
        }
    }
    if found {
        proof {
            lemma_rscan_determined(s@, c, j - 1);
        }
        Some(j - 1)
    } else {
        proof {
            lemma_rscan_determined(s@, c, -1);
        }
        None
    }
}

/// The character written for a decimal digit.
pub open spec fn digit_char(d: int) -> char {
    if d == 0 {
        '0'
    } else if d == 1 {
        '1'
    } else if d == 2 {
        '2'
    } else if d == 3 {
        '3'
    } else if d == 4 {
        '4'
    } else if d == 5 {
        '5'
    } else if d == 6 {
        '6'
    } else if d == 7 {
        '7'
    } else if d == 8 {
        '8'
    } else {
        '9'
    }
}

/// The usual decimal notation of a non-negative integer, no leading zeros.
pub open spec fn spec_dec(n: int) -> Seq<char>
    decreases n,
{
    if n < 10 {
        seq![digit_char(n)]
    } else {
        spec_dec(n / 10) + seq![digit_char(n % 10)]
    }
}

fn digit_str(d: u64) -> (r: &'static str)
    requires
        d < 10,
    ensures
        r@ == seq![digit_char(d as int)],
{
    proof {
        reveal_strlit("0");
        reveal_strlit("1");
        reveal_strlit("2");
        reveal_strlit("3");
        reveal_strlit("4");
        reveal_strlit("5");
        reveal_strlit("6");
        reveal_strlit("7");
        reveal_strlit("8");
        reveal_strlit("9");
    }
    match d {
        0 => "0",
        1 => "1",
        2 => "2",
        3 => "3",
        4 => "4",
        5 => "5",
        6 => "6",
        7 => "7",
        8 => "8",
        _ => "9",
    }
}

/// Write `n` in decimal.
pub fn u64_to_dec(n: u64) -> (r: String)
    ensures
        r@ == spec_dec(n as int),
    decreases n,
{
    if n < 10 {
        digit_str(n).to_owned()
    } else {
        let mut head = u64_to_dec(n / 10);
        head.append(digit_str(n % 10));
        head
    }
}

} // verus!
