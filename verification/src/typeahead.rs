//! The typeahead engine: a pure completion function over a candidate set.
//!
//! The suggested suffix is the longest common prefix of all candidates that
//! extend the input, with the input itself removed.

use crate::strutil::is_prefix;
use vstd::prelude::*;
use vstd::string::{StrSliceExecFns, StringExecFns};

verus! {

/// The longest common prefix of two character sequences.
pub open spec fn lcp2(a: Seq<char>, b: Seq<char>) -> Seq<char>
    decreases a.len(),
{
    if a.len() == 0 || b.len() == 0 {
        Seq::empty()
    } else if a[0] == b[0] {
        seq![a[0]] + lcp2(a.drop_first(), b.drop_first())
    } else {
        Seq::empty()
    }
}

/// The longest common prefix of a family, folded pairwise from the left.
pub open spec fn lcp_all(ms: Seq<Seq<char>>) -> Seq<char>
    decreases ms.len(),
{
    if ms.len() == 0 {
        Seq::empty()
    } else if ms.len() == 1 {
        ms[0]
    } else {
        lcp2(lcp_all(ms.drop_last()), ms.last())
    }
}

/// The candidates that start with `input`, kept in order.
pub open spec fn matching(candidates: Seq<Seq<char>>, input: Seq<char>) -> Seq<Seq<char>>
    decreases candidates.len(),
{
    if candidates.len() == 0 {
        Seq::empty()
    } else {
        let rest = matching(candidates.drop_last(), input);
        if is_prefix(input, candidates.last()) {
            rest.push(candidates.last())
        } else {
            rest
        }
    }
}

/// The completion suffix: empty when the input is shorter than `limit`, the
/// candidate set is empty, or nothing matches; otherwise the longest common
/// prefix of the matching candidates, beyond the input.
pub open spec fn typeahead(candidates: Seq<Seq<char>>, input: Seq<char>, limit: nat) -> Seq<char> {
    if input.len() < limit || candidates.len() == 0 {
        Seq::empty()
    } else {
        let ms = matching(candidates, input);
        if ms.len() == 0 {
            Seq::empty()
        } else {
            lcp_all(ms).skip(input.len() as int)
        }
    }
}

/// Where two sequences first diverge (or the shorter ends), the common
/// prefix is everything before that point.
proof fn lemma_lcp2_at_divergence(a: Seq<char>, b: Seq<char>, j: int)
    requires
        0 <= j <= a.len(),
        j <= b.len(),
        forall|k: int| 0 <= k < j ==> a[k] == b[k],
        j < a.len() && j < b.len() ==> a[j] != b[j],
    ensures
        lcp2(a, b) == a.subrange(0, j),
    decreases j,
{
    if j == 0 {
        assert(a.subrange(0, 0) =~= Seq::<char>::empty());
        if a.len() > 0 && b.len() > 0 {
            assert(a[0] != b[0]);
        }
    } else {
        assert(a[0] == b[0]);
        let a1 = a.drop_first();
        let b1 = b.drop_first();
        assert forall|k: int| 0 <= k < j - 1 implies #[trigger] a1[k] == b1[k] by {
            assert(a[k + 1] == b[k + 1]);
        }
        if j - 1 < a1.len() && j - 1 < b1.len() {
            assert(a1[j - 1] == a[j]);
            assert(b1[j - 1] == b[j]);
        }
        lemma_lcp2_at_divergence(a1, b1, j - 1);
        assert(lcp2(a, b) == seq![a[0]] + a1.subrange(0, j - 1));
        assert(seq![a[0]] + a1.subrange(0, j - 1) =~= a.subrange(0, j));
    }
}

/// A common prefix of two sequences is a prefix of their longest common
/// prefix.
proof fn lemma_lcp2_keeps_prefix(p: Seq<char>, a: Seq<char>, b: Seq<char>)
    requires
        is_prefix(p, a),
        is_prefix(p, b),
    ensures
        is_prefix(p, lcp2(a, b)),
    decreases p.len(),
{
    if p.len() == 0 {
        assert(p =~= lcp2(a, b).subrange(0, 0));
    } else {
        assert(p[0] == a.subrange(0, p.len() as int)[0]);
        assert(p[0] == b.subrange(0, p.len() as int)[0]);
        assert(a[0] == b[0]);
        let p1 = p.drop_first();
        let a1 = a.drop_first();
        let b1 = b.drop_first();
        assert(p1 =~= a1.subrange(0, p1.len() as int));
        assert(p1 =~= b1.subrange(0, p1.len() as int));
        lemma_lcp2_keeps_prefix(p1, a1, b1);
        let r = lcp2(a, b);
        assert(r == seq![a[0]] + lcp2(a1, b1));
        assert(p.len() <= r.len());
        assert forall|idx: int| 0 <= idx < p.len() implies p[idx] == r[idx] by {
            if idx == 0 {
                assert(r[0] == a[0]);
            } else {
                assert(p[idx] == p1[idx - 1]);
                assert(p1[idx - 1] == lcp2(a1, b1).subrange(0, p1.len() as int)[idx - 1]);
                assert(r[idx] == lcp2(a1, b1)[idx - 1]);
            }
        }
        assert(p =~= r.subrange(0, p.len() as int));
    }
}

/// Every matching candidate starts with the input.
pub proof fn lemma_matching_all_prefixed(candidates: Seq<Seq<char>>, input: Seq<char>)
    ensures
        forall|j: int|
            0 <= j < matching(candidates, input).len() ==> is_prefix(
                input,
                #[trigger] matching(candidates, input)[j],
            ),
    decreases candidates.len(),
{
    if candidates.len() > 0 {
        lemma_matching_all_prefixed(candidates.drop_last(), input);
        let rest = matching(candidates.drop_last(), input);
        let m = matching(candidates, input);
        assert forall|j: int| 0 <= j < m.len() implies is_prefix(input, #[trigger] m[j]) by {
            if j < rest.len() {
                assert(m[j] == rest[j]);
            } else {
                assert(is_prefix(input, candidates.last()));
                assert(m[j] == candidates.last());
            }
        }
    }
}

/// A common prefix of every member of a non-empty family is a prefix of the
/// family's longest common prefix.
proof fn lemma_lcp_all_keeps_prefix(ms: Seq<Seq<char>>, p: Seq<char>)
    requires
        ms.len() > 0,
        forall|j: int| 0 <= j < ms.len() ==> is_prefix(p, #[trigger] ms[j]),
    ensures
        is_prefix(p, lcp_all(ms)),
    decreases ms.len(),
{
    if ms.len() > 1 {
        let front = ms.drop_last();
        assert forall|j: int| 0 <= j < front.len() implies is_prefix(p, #[trigger] front[j]) by {
            assert(front[j] == ms[j]);
        }
        lemma_lcp_all_keeps_prefix(front, p);
        lemma_lcp2_keeps_prefix(p, lcp_all(front), ms.last());
    }
}

/// The longest common prefix of two sequences is a prefix of both.
proof fn lemma_lcp2_prefix_of_operands(a: Seq<char>, b: Seq<char>)
    ensures
        is_prefix(lcp2(a, b), a),
        is_prefix(lcp2(a, b), b),
    decreases a.len(),
{
    if a.len() == 0 || b.len() == 0 || a[0] != b[0] {
        assert(lcp2(a, b) =~= a.subrange(0, 0));
        assert(lcp2(a, b) =~= b.subrange(0, 0));
    } else {
        lemma_lcp2_prefix_of_operands(a.drop_first(), b.drop_first());
        let r = lcp2(a, b);
        let r1 = lcp2(a.drop_first(), b.drop_first());
        assert(r1 =~= a.drop_first().subrange(0, r1.len() as int));
        assert(r1 =~= b.drop_first().subrange(0, r1.len() as int));
        assert forall|idx: int| 0 <= idx < r.len() implies r[idx] == a[idx] && r[idx]
            == b[idx] by {
            if idx > 0 {
                assert(r[idx] == r1[idx - 1]);
                assert(r1[idx - 1] == a.drop_first()[idx - 1]);
                assert(r1[idx - 1] == b.drop_first()[idx - 1]);
            }
        }
        assert(r =~= a.subrange(0, r.len() as int));
        assert(r =~= b.subrange(0, r.len() as int));
    }
}

/// A family's longest common prefix is a prefix of every member.
proof fn lemma_lcp_all_prefix_of_each(ms: Seq<Seq<char>>)
    requires
        ms.len() > 0,
    ensures
        forall|j: int| 0 <= j < ms.len() ==> is_prefix(lcp_all(ms), #[trigger] ms[j]),
    decreases ms.len(),
{
    if ms.len() == 1 {
        assert(ms[0] =~= ms[0].subrange(0, ms[0].len() as int));
    } else {
        let front = ms.drop_last();
        lemma_lcp_all_prefix_of_each(front);
        lemma_lcp2_prefix_of_operands(lcp_all(front), ms.last());
        let r = lcp_all(ms);
        assert forall|j: int| 0 <= j < ms.len() implies is_prefix(r, #[trigger] ms[j]) by {
            if j < front.len() {
                assert(is_prefix(lcp_all(front), front[j]));
                assert(front[j] == ms[j]);
                assert(r =~= lcp_all(front).subrange(0, r.len() as int));
                assert(r =~= ms[j].subrange(0, r.len() as int));
            } else {
                assert(ms[j] == ms.last());
            }
        }
    }
}

/// What a completion is: appended to the input, the suggested suffix yields
/// the longest common prefix of the matching candidates, and every matching
/// candidate starts with that.
pub proof fn lemma_typeahead_completes_to_common_prefix(
    candidates: Seq<Seq<char>>,
    input: Seq<char>,
    limit: nat,
)
    requires
        input.len() >= limit,
        matching(candidates, input).len() > 0,
    ensures
        input + typeahead(candidates, input, limit) == lcp_all(matching(candidates, input)),
        forall|j: int|
            0 <= j < matching(candidates, input).len() ==> is_prefix(
                input + typeahead(candidates, input, limit),
                #[trigger] matching(candidates, input)[j],
            ),
{
    let ms = matching(candidates, input);
    assert(candidates.len() > 0);
    lemma_matching_all_prefixed(candidates, input);
    lemma_lcp_all_keeps_prefix(ms, input);
    assert(input + lcp_all(ms).skip(input.len() as int) =~= lcp_all(ms));
    lemma_lcp_all_prefix_of_each(ms);
}

/// The longest common prefix of two strings, as a borrowed slice of the
/// first.
fn lcp_of<'a>(a: &'a str, b: &'a str) -> (r: &'a str)
    ensures
        r@ == lcp2(a@, b@),
{
    let alen = a.unicode_len();
    let blen = b.unicode_len();
    let n = if alen < blen {
        alen
    } else {
        blen
    };
    let mut i: usize = 0;
    while i < n && a.get_char(i) == b.get_char(i)
        invariant
            alen == a@.len(),
            blen == b@.len(),
            n == vstd::math::min(alen as int, blen as int),
            i <= n,
            forall|k: int| 0 <= k < i ==> a@[k] == b@[k],
        decreases n - i,
    {
        i += 1;
    }
    proof {
        lemma_lcp2_at_divergence(a@, b@, i as int);
    }
    a.substring_char(0, i)
}

/// Computes the suggested completion for `input` from `candidates`: the
/// longest common prefix of all candidates extending the input, beyond the
/// input itself, or the empty string when the input is shorter than `limit`
/// or nothing matches.
pub fn use_typeahead(candidates: Vec<&str>, input: &str, limit: usize) -> (r: String)
    ensures
        r@ == typeahead(candidates.deep_view(), input@, limit as nat),
{
    let input_len = input.unicode_len();
    if input_len < limit || candidates.len() == 0 {
        return String::new();
    }
    let ghost cands = candidates.deep_view();

    let mut filtered: Vec<&str> = Vec::new();
    let mut i: usize = 0;
    while i < candidates.len()
        invariant
            input_len == input@.len(),
            i <= candidates@.len(),
            cands == candidates.deep_view(),
            filtered.deep_view() == matching(cands.subrange(0, i as int), input@),
        decreases candidates@.len() - i,
    {
        let ghost pre_filtered = filtered.deep_view();
        if crate::strutil::starts_with_str(candidates[i], input) {
            filtered.push(candidates[i]);
        }
        proof {
            let step = cands.subrange(0, i + 1);
            assert(step.drop_last() =~= cands.subrange(0, i as int));
            assert(step.last() == cands[i as int]);
            assert(cands[i as int] == candidates@[i as int]@);
            if is_prefix(input@, cands[i as int]) {
                assert(filtered.deep_view() =~= pre_filtered.push(cands[i as int]));
            }
        }
        i += 1;
    }
    proof {
        assert(cands.subrange(0, candidates@.len() as int) =~= cands);
    }
    let ghost ms = matching(cands, input@);

    if filtered.len() == 0 {
        return String::new();
    }
    let mut acc: &str = filtered[0];
    proof {
        assert(acc@ == filtered.deep_view()[0]);
        assert(ms.subrange(0, 1) =~= seq![ms[0]]);
        assert(lcp_all(ms.subrange(0, 1)) == ms[0]);
    }
    let mut k: usize = 1;
    while k < filtered.len()
        invariant
            1 <= k <= filtered@.len(),
            filtered.deep_view() == ms,
            acc@ == lcp_all(ms.subrange(0, k as int)),
        decreases filtered@.len() - k,
    {
        let ghost prev_acc = acc@;
        acc = lcp_of(acc, filtered[k]);
        proof {
            let step = ms.subrange(0, k + 1);
            assert(step.drop_last() =~= ms.subrange(0, k as int));
            assert(step.last() == ms[k as int]);
            assert(ms[k as int] == filtered.deep_view()[k as int]);
            assert(acc@ == lcp2(prev_acc, ms[k as int]));
        }
        k += 1;
    }
    proof {
        assert(ms.subrange(0, ms.len() as int) =~= ms);
        lemma_matching_all_prefixed(cands, input@);
        lemma_lcp_all_keeps_prefix(ms, input@);
    }
    let acc_len = acc.unicode_len();
    let suffix = acc.substring_char(input_len, acc_len);
    proof {
        assert(suffix@ =~= lcp_all(ms).skip(input@.len() as int));
    }
    String::from_str(suffix)
}

/// For any non-empty candidate set and an input shorter than the limit, the
/// suggested completion is empty.
pub proof fn lemma_typeahead_short_input(candidates: Seq<Seq<char>>, input: Seq<char>, limit: nat)
    requires
        candidates.len() > 0,
        input.len() < limit,
    ensures
        typeahead(candidates, input, limit) == Seq::<char>::empty(),
{
}

/// When exactly one candidate matches an input of admissible length, the
/// completion is the remainder of that candidate beyond the input.
pub proof fn lemma_typeahead_single_match(candidates: Seq<Seq<char>>, input: Seq<char>, limit: nat)
    requires
        input.len() >= limit,
        matching(candidates, input).len() == 1,
    ensures
        is_prefix(input, matching(candidates, input)[0]),
        typeahead(candidates, input, limit) == matching(candidates, input)[0].skip(
            input.len() as int,
        ),
{
    lemma_matching_all_prefixed(candidates, input);
    assert(candidates.len() > 0);
    assert(lcp_all(matching(candidates, input)) == matching(candidates, input)[0]);
}

} // verus!
