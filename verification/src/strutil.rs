//! Character-level string utilities shared by the shell core.
//!
//! All reasoning is over `Seq<char>` views; nothing here is trusted.

use vstd::prelude::*;
use vstd::string::StrSliceExecFns;

verus! {

/// `p` is a prefix of `s`.
pub open spec fn is_prefix(p: Seq<char>, s: Seq<char>) -> bool {
    p.len() <= s.len() && p == s.subrange(0, p.len() as int)
}

/// Character-by-character string equality.
pub fn str_eq(a: &str, b: &str) -> (r: bool)
    ensures
        r == (a@ == b@),
{
    let alen = a.unicode_len();
    let blen = b.unicode_len();
    if alen != blen {
        proof {
            if a@ == b@ {
                assert(a@.len() == b@.len());
            }
        }
        return false;
    }
    let mut i: usize = 0;
    while i < alen
        invariant
            alen == a@.len(),
            blen == b@.len(),
            alen == blen,
            i <= alen,
            forall|j: int| 0 <= j < i ==> a@[j] == b@[j],
        decreases alen - i,
    {
        if a.get_char(i) != b.get_char(i) {
            return false;
        }
        i += 1;
    }
    proof {
        assert(a@ =~= b@);
    }
    true
}

/// ASCII whitespace, the only kind the shell input can carry.
pub open spec fn is_ws(c: char) -> bool {
    c == ' ' || c == '\t' || c == '\n' || c == '\r'
}

/// `s` without its leading whitespace.
pub open spec fn trim_front(s: Seq<char>) -> Seq<char>
    decreases s.len(),
{
    if s.len() > 0 && is_ws(s[0]) {
        trim_front(s.drop_first())
    } else {
        s
    }
}

/// `s` without its trailing whitespace.
pub open spec fn trim_back(s: Seq<char>) -> Seq<char>
    decreases s.len(),
{
    if s.len() > 0 && is_ws(s.last()) {
        trim_back(s.drop_last())
    } else {
        s
    }
}

/// `s` without leading and trailing whitespace.
pub open spec fn trim_spec(s: Seq<char>) -> Seq<char> {
    trim_back(trim_front(s))
}

/// The first position of `c` in `s`, or -1 when absent.
pub open spec fn find_char(s: Seq<char>, c: char) -> int
    decreases s.len(),
{
    if s.len() == 0 {
        -1
    } else if s[0] == c {
        0
    } else {
        let r = find_char(s.drop_first(), c);
        if r < 0 {
            -1
        } else {
            r + 1
        }
    }
}

/// `s` split on every space, empty segments kept.
pub open spec fn split_spaces(s: Seq<char>) -> Seq<Seq<char>>
    decreases s.len(),
{
    let i = find_char(s, ' ');
    if 0 <= i && i < s.len() {
        seq![s.subrange(0, i)] + split_spaces(s.subrange(i + 1, s.len() as int))
    } else {
        seq![s]
    }
}

/// `parts` joined with single spaces.
pub open spec fn join_spaces(parts: Seq<Seq<char>>) -> Seq<char> {
    join_with(parts, seq![' '])
}

/// `parts` joined with the separator `sep`.
pub open spec fn join_with(parts: Seq<Seq<char>>, sep: Seq<char>) -> Seq<char>
    decreases parts.len(),
{
    if parts.len() == 0 {
        Seq::empty()
    } else if parts.len() == 1 {
        parts[0]
    } else {
        parts[0] + sep + join_with(parts.drop_first(), sep)
    }
}

/// Whether `s` starts with the prefix `p`.
pub fn starts_with_str(s: &str, p: &str) -> (r: bool)
    ensures
        r == is_prefix(p@, s@),
{
    let slen = s.unicode_len();
    let plen = p.unicode_len();
    if plen > slen {
        return false;
    }
    let mut i: usize = 0;
    while i < plen
        invariant
            slen == s@.len(),
            plen == p@.len(),
            plen <= slen,
            i <= plen,
            forall|j: int| 0 <= j < i ==> p@[j] == s@[j],
        decreases plen - i,
    {
        if p.get_char(i) != s.get_char(i) {
            proof {
                if is_prefix(p@, s@) {
                    assert(p@[i as int] == s@.subrange(0, p@.len() as int)[i as int]);
                }
            }
            return false;
        }
        i += 1;
    }
    proof {
        assert(p@ =~= s@.subrange(0, p@.len() as int));
    }
    true
}

fn is_ws_char(c: char) -> (r: bool)
    ensures
        r == is_ws(c),
{
    c == ' ' || c == '\t' || c == '\n' || c == '\r'
}

/// A scan that stops at the first non-whitespace character finds where
/// `trim_front` stops.
proof fn lemma_trim_front_scan(s: Seq<char>, i: int)
    requires
        0 <= i <= s.len(),
        forall|k: int| 0 <= k < i ==> is_ws(s[k]),
        i < s.len() ==> !is_ws(s[i]),
    ensures
        trim_front(s) == s.subrange(i, s.len() as int),
    decreases i,
{
    if i == 0 {
        assert(s.subrange(0, s.len() as int) =~= s);
    } else {
        assert(is_ws(s[0]));
        let s1 = s.drop_first();
        assert forall|k: int| 0 <= k < i - 1 implies is_ws(s1[k]) by {
            assert(s1[k] == s[k + 1]);
        }
        if i - 1 < s1.len() {
            assert(s1[i - 1] == s[i]);
        }
        lemma_trim_front_scan(s1, i - 1);
        assert(s1.subrange(i - 1, s1.len() as int) =~= s.subrange(i, s.len() as int));
    }
}

/// A scan that stops at the last non-whitespace character finds where
/// `trim_back` stops.
proof fn lemma_trim_back_scan(s: Seq<char>, j: int)
    requires
        0 <= j <= s.len(),
        forall|k: int| j <= k < s.len() ==> is_ws(s[k]),
        j > 0 ==> !is_ws(s[j - 1]),
    ensures
        trim_back(s) == s.subrange(0, j),
    decreases s.len(),
{
    if j == s.len() {
        if s.len() > 0 {
            assert(!is_ws(s.last()));
        }
        assert(s.subrange(0, j) =~= s);
    } else {
        assert(is_ws(s.last()));
        let s1 = s.drop_last();
        assert forall|k: int| j <= k < s1.len() implies is_ws(s1[k]) by {
            assert(s1[k] == s[k]);
        }
        lemma_trim_back_scan(s1, j);
        assert(s1.subrange(0, j) =~= s.subrange(0, j));
    }
}

/// `s` without leading and trailing ASCII whitespace.
pub fn trim_str<'a>(s: &'a str) -> (r: &'a str)
    ensures
        r@ == trim_spec(s@),
{
    let len = s.unicode_len();
    let mut i: usize = 0;
    while i < len && is_ws_char(s.get_char(i))
        invariant
            i <= len,
            len == s@.len(),
            forall|k: int| 0 <= k < i ==> is_ws(s@[k]),
        decreases len - i,
    {
        i += 1;
    }
    let mut j: usize = len;
    while j > i && is_ws_char(s.get_char(j - 1))
        invariant
            i <= j <= len,
            len == s@.len(),
            forall|k: int| j <= k < len ==> is_ws(s@[k]),
        decreases j,
    {
        j -= 1;
    }
    proof {
        lemma_trim_front_scan(s@, i as int);
        let t = s@.subrange(i as int, len as int);
        assert forall|k: int| j - i <= k < t.len() implies is_ws(t[k]) by {
            assert(t[k] == s@[k + i]);
        }
        if j > i {
            assert(t[j - i - 1] == s@[j - 1]);
        }
        lemma_trim_back_scan(t, j - i);
        assert(t.subrange(0, j - i) =~= s@.subrange(i as int, j as int));
    }
    s.substring_char(i, j)
}

/// A scan that stops at the first occurrence of `c` finds `find_char`.
proof fn lemma_find_char_scan(s: Seq<char>, c: char, i: int)
    requires
        0 <= i <= s.len(),
        forall|k: int| 0 <= k < i ==> s[k] != c,
        i < s.len() ==> s[i] == c,
    ensures
        find_char(s, c) == if i == s.len() {
            -1int
        } else {
            i
        },
    decreases s.len(),
{
    if s.len() == 0 {
    } else if s[0] == c {
        assert(i == 0);
    } else {
        assert(i >= 1 || i == s.len());
        let s1 = s.drop_first();
        if i == s.len() {
            assert forall|k: int| 0 <= k < s1.len() implies s1[k] != c by {
                assert(s1[k] == s[k + 1]);
            }
            lemma_find_char_scan(s1, c, i - 1);
        } else {
            assert forall|k: int| 0 <= k < i - 1 implies s1[k] != c by {
                assert(s1[k] == s[k + 1]);
            }
            assert(s1[i - 1] == s[i]);
            lemma_find_char_scan(s1, c, i - 1);
        }
    }
}

/// Where `find_char` succeeds, it points at the first occurrence.
pub proof fn lemma_find_char_props(s: Seq<char>, c: char)
    ensures
        find_char(s, c) >= 0 ==> find_char(s, c) < s.len() && s[find_char(s, c)] == c,
        find_char(s, c) < 0 ==> forall|k: int| 0 <= k < s.len() ==> s[k] != c,
        find_char(s, c) >= 0 ==> forall|k: int| 0 <= k < find_char(s, c) ==> s[k] != c,
    decreases s.len(),
{
    if s.len() > 0 && s[0] != c {
        lemma_find_char_props(s.drop_first(), c);
        let s1 = s.drop_first();
        assert forall|k: int| 0 <= k < s.len() && (find_char(s, c) < 0 || k < find_char(
            s,
            c,
        )) implies s[k] != c by {
            if k > 0 {
                assert(s1[k - 1] == s[k]);
            }
        }
    }
}

/// Splitting yields at least one segment.
pub proof fn lemma_split_nonempty(s: Seq<char>)
    ensures
        split_spaces(s).len() >= 1,
{
}

/// Joining the split segments with single spaces restores the string.
pub proof fn lemma_join_split(s: Seq<char>)
    ensures
        join_spaces(split_spaces(s)) == s,
    decreases s.len(),
{
    let i = find_char(s, ' ');
    lemma_find_char_props(s, ' ');
    if i < 0 {
        assert(join_spaces(seq![s]) == s);
    } else {
        let rest = s.subrange(i + 1, s.len() as int);
        lemma_join_split(rest);
        lemma_split_nonempty(rest);
        let parts = seq![s.subrange(0, i)] + split_spaces(rest);
        assert(parts.drop_first() =~= split_spaces(rest));
        assert(parts[0] == s.subrange(0, i));
        assert(join_spaces(parts) == s.subrange(0, i) + seq![' '] + rest);
        assert(s.subrange(0, i) + seq![' '] + rest =~= s);
    }
}

/// `s` split on every space, empty segments kept.
pub fn split_spaces_str(s: &str) -> (r: Vec<String>)
    ensures
        r.deep_view() == split_spaces(s@),
{
    let len = s.unicode_len();
    let mut parts: Vec<String> = Vec::new();
    let mut start: usize = 0;
    proof {
        assert(s@.subrange(0, len as int) =~= s@);
        assert(parts.deep_view() =~= Seq::<Seq<char>>::empty());
        assert(Seq::<Seq<char>>::empty() + split_spaces(s@) =~= split_spaces(s@));
    }
    loop
        invariant
            start <= len,
            len == s@.len(),
            split_spaces(s@) == parts.deep_view() + split_spaces(
                s@.subrange(start as int, len as int),
            ),
        decreases len - start,
    {
        let ghost pre_parts = parts.deep_view();
        let ghost rem = s@.subrange(start as int, len as int);
        let mut j: usize = start;
        while j < len && s.get_char(j) != ' '
            invariant
                start <= j <= len,
                len == s@.len(),
                forall|k: int| start <= k < j ==> s@[k] != ' ',
            decreases len - j,
        {
            j += 1;
        }
        proof {
            assert forall|k: int| 0 <= k < j - start implies rem[k] != ' ' by {
                assert(rem[k] == s@[k + start]);
            }
            if j < len {
                assert(rem[j - start] == s@[j as int]);
            }
            lemma_find_char_scan(rem, ' ', j - start);
        }
        let piece = s.substring_char(start, j);
        parts.push(String::from_str(piece));
        proof {
            assert(piece@ =~= rem.subrange(0, j - start));
            assert(parts.deep_view() =~= pre_parts.push(piece@));
        }
        if j == len {
            proof {
                assert(piece@ =~= rem);
                assert(split_spaces(rem) == seq![rem]);
                assert(pre_parts.push(piece@) =~= pre_parts + seq![rem]);
                assert(parts.deep_view() =~= split_spaces(s@));
            }
            return parts;
        }
        proof {
            let tail = rem.subrange(j - start + 1, rem.len() as int);
            assert(split_spaces(rem) == seq![rem.subrange(0, j - start)] + split_spaces(tail));
            assert(tail =~= s@.subrange(j + 1, len as int));
            assert(pre_parts.push(piece@) + split_spaces(tail) =~= pre_parts + (seq![
                rem.subrange(0, j - start),
            ] + split_spaces(tail)));
            assert(parts.deep_view() + split_spaces(s@.subrange(j + 1, len as int))
                =~= split_spaces(s@));
        }
        start = j + 1;
    }
}

/// `s` split at the first space, which is dropped: the command word and the
/// argument text, when there is one.
pub fn split_once_space<'a>(s: &'a str) -> (r: (&'a str, Option<&'a str>))
    ensures
        find_char(s@, ' ') < 0 ==> r.0@ == s@ && r.1 is None,
        find_char(s@, ' ') >= 0 ==> ({
            let i = find_char(s@, ' ');
            &&& r.0@ == s@.subrange(0, i)
            &&& r.1 matches Some(rest) && rest@ == s@.subrange(i + 1, s@.len() as int)
        }),
{
    let len = s.unicode_len();
    let mut j: usize = 0;
    while j < len && s.get_char(j) != ' '
        invariant
            j <= len,
            len == s@.len(),
            forall|k: int| 0 <= k < j ==> s@[k] != ' ',
        decreases len - j,
    {
        j += 1;
    }
    proof {
        lemma_find_char_scan(s@, ' ', j as int);
    }
    if j == len {
        (s, None)
    } else {
        (s.substring_char(0, j), Some(s.substring_char(j + 1, len)))
    }
}

/// `parts` joined with single spaces.
pub fn join_spaces_vec(parts: &Vec<String>) -> (r: String)
    ensures
        r@ == join_spaces(parts.deep_view()),
{
    if parts.len() == 0 {
        let r = String::new();
        proof {
            assert(r@ =~= join_spaces(parts.deep_view()));
        }
        return r;
    }
    let mut acc = parts[0].clone();
    proof {
        assert(acc@ == parts.deep_view()[0]);
        assert(parts.deep_view().subrange(0, 1) =~= seq![parts.deep_view()[0]]);
    }
    let mut i: usize = 1;
    while i < parts.len()
        invariant
            1 <= i <= parts@.len(),
            acc@ == join_spaces(parts.deep_view().subrange(0, i as int)),
        decreases parts@.len() - i,
    {
        let ghost pre = parts.deep_view().subrange(0, i as int);
        acc.append(" ");
        acc.append(parts[i].as_str());
        proof {
            reveal_strlit(" ");
            assert(" "@ =~= seq![' ']);
            assert(parts.deep_view()[i as int] == parts@[i as int]@);
            lemma_join_with_push(pre, seq![' '], parts.deep_view()[i as int]);
            assert(parts.deep_view().subrange(0, i + 1) =~= pre.push(parts.deep_view()[i as int]));
            assert(acc@ =~= join_spaces(parts.deep_view().subrange(0, i + 1)));
        }
        i += 1;
    }
    proof {
        assert(parts.deep_view().subrange(0, parts@.len() as int) =~= parts.deep_view());
    }
    acc
}

/// Joining with a separator grows one segment at a time.
proof fn lemma_join_with_push(p: Seq<Seq<char>>, sep: Seq<char>, x: Seq<char>)
    requires
        p.len() >= 1,
    ensures
        join_with(p.push(x), sep) == join_with(p, sep) + sep + x,
    decreases p.len(),
{
    if p.len() == 1 {
        assert((p.push(x)).drop_first() =~= seq![x]);
        assert(join_with(seq![x], sep) == x);
        assert((p.push(x))[0] == p[0]);
        assert(join_with(p.push(x), sep) == p[0] + sep + x);
    } else {
        lemma_join_with_push(p.drop_first(), sep, x);
        assert((p.push(x)).drop_first() =~= p.drop_first().push(x));
        assert((p.push(x))[0] == p[0]);
        assert(join_with(p.push(x), sep) =~= join_with(p, sep) + sep + x);
    }
}

/// `parts` joined with the separator `sep`.
pub fn join_with_strs(parts: &Vec<&str>, sep: &str) -> (r: String)
    ensures
        r@ == join_with(parts.deep_view(), sep@),
{
    if parts.len() == 0 {
        let r = String::new();
        proof {
            assert(r@ =~= join_with(parts.deep_view(), sep@));
        }
        return r;
    }
    let mut acc = String::from_str(parts[0]);
    proof {
        assert(acc@ == parts.deep_view()[0]);
        assert(parts.deep_view().subrange(0, 1) =~= seq![parts.deep_view()[0]]);
    }
    let mut i: usize = 1;
    while i < parts.len()
        invariant
            1 <= i <= parts@.len(),
            acc@ == join_with(parts.deep_view().subrange(0, i as int), sep@),
        decreases parts@.len() - i,
    {
        let ghost pre = parts.deep_view().subrange(0, i as int);
        acc.append(sep);
        acc.append(parts[i]);
        proof {
            assert(parts.deep_view()[i as int] == parts@[i as int]@);
            lemma_join_with_push(pre, sep@, parts.deep_view()[i as int]);
            assert(parts.deep_view().subrange(0, i + 1) =~= pre.push(parts.deep_view()[i as int]));
            assert(acc@ =~= join_with(parts.deep_view().subrange(0, i + 1), sep@));
        }
        i += 1;
    }
    proof {
        assert(parts.deep_view().subrange(0, parts@.len() as int) =~= parts.deep_view());
    }
    acc
}

/// `s` cut at a character position: the parts before and after it.
pub fn split_at(s: &str, mid: usize) -> (r: (String, String))
    requires
        mid <= s@.len(),
    ensures
        r.0@ == s@.subrange(0, mid as int),
        r.1@ == s@.subrange(mid as int, s@.len() as int),
{
    let len = s.unicode_len();
    let before = String::from_str(s.substring_char(0, mid));
    let after = String::from_str(s.substring_char(mid, len));
    (before, after)
}

/// `s` split at the first space, which stays with the second part; without
/// a space the second part is empty.
pub fn split_first(s: &str) -> (r: (String, String))
    ensures
        find_char(s@, ' ') < 0 ==> r.0@ == s@ && r.1@ == Seq::<char>::empty(),
        find_char(s@, ' ') >= 0 ==> ({
            let i = find_char(s@, ' ');
            &&& r.0@ == s@.subrange(0, i)
            &&& r.1@ == s@.subrange(i, s@.len() as int)
        }),
{
    let len = s.unicode_len();
    let mut j: usize = 0;
    while j < len && s.get_char(j) != ' '
        invariant
            j <= len,
            len == s@.len(),
            forall|k: int| 0 <= k < j ==> s@[k] != ' ',
        decreases len - j,
    {
        j += 1;
    }
    proof {
        lemma_find_char_scan(s@, ' ', j as int);
    }
    if j == len {
        (String::from_str(s), String::new())
    } else {
        (String::from_str(s.substring_char(0, j)), String::from_str(s.substring_char(j, len)))
    }
}

} // verus!
