//! The similarity matcher: edit distance between identifiers and the
//! closest-match lookup used to enrich "not found" errors.

use vstd::prelude::*;

verus! {

/// The least of three naturals.
pub open spec fn min3(a: nat, b: nat, c: nat) -> nat {
    if a <= b && a <= c {
        a
    } else if b <= c {
        b
    } else {
        c
    }
}

/// The edit distance between the first `i` characters of `s` and the first
/// `j` characters of `t`: the least number of character insertions,
/// deletions and substitutions turning one into the other.
pub open spec fn ed_prefix(s: Seq<char>, t: Seq<char>, i: nat, j: nat) -> nat
    recommends
        i <= s.len(),
        j <= t.len(),
    decreases i + j,
{
    if i == 0 {
        j
    } else if j == 0 {
        i
    } else {
        let cost: nat = if s[i - 1] == t[j - 1] {
            0
        } else {
            1
        };
        min3(
            ed_prefix(s, t, (i - 1) as nat, j) + 1,
            ed_prefix(s, t, i, (j - 1) as nat) + 1,
            ed_prefix(s, t, (i - 1) as nat, (j - 1) as nat) + cost,
        )
    }
}

/// The edit distance between two character sequences.
pub open spec fn edit_distance(s: Seq<char>, t: Seq<char>) -> nat {
    ed_prefix(s, t, s.len(), t.len())
}

/// Edit distance never exceeds the summed lengths.
proof fn lemma_ed_bound(s: Seq<char>, t: Seq<char>, i: nat, j: nat)
    requires
        i <= s.len(),
        j <= t.len(),
    ensures
        ed_prefix(s, t, i, j) <= i + j,
    decreases i + j,
{
    if i == 0 {
    } else if j == 0 {
    } else {
        lemma_ed_bound(s, t, (i - 1) as nat, j);
        lemma_ed_bound(s, t, i, (j - 1) as nat);
        lemma_ed_bound(s, t, (i - 1) as nat, (j - 1) as nat);
    }
}

/// The edit distance between two strings, by the usual dynamic program over
/// prefix lengths, one row at a time.
pub fn levenshtein_distance(s1: &str, s2: &str) -> (r: usize)
    requires
        s1@.len() + s2@.len() < usize::MAX,
    ensures
        r == edit_distance(s1@, s2@),
{
    let len1 = s1.unicode_len();
    let len2 = s2.unicode_len();
    if len1 == 0 {
        return len2;
    }
    if len2 == 0 {
        return len1;
    }

    let mut prev: Vec<usize> = Vec::new();
    let mut j: usize = 0;
    while j <= len2
        invariant
            j <= len2 + 1,
            len2 == s2@.len(),
            len1 == s1@.len(),
            len1 + len2 < usize::MAX,
            prev@.len() == j,
            forall|q: int| 0 <= q < j ==> prev@[q] == ed_prefix(s1@, s2@, 0, q as nat),
        decreases len2 + 1 - j,
    {
        prev.push(j);
        j += 1;
    }

    let mut i: usize = 1;
    while i <= len1
        invariant
            1 <= i <= len1 + 1,
            len1 == s1@.len(),
            len2 == s2@.len(),
            len1 + len2 < usize::MAX,
            prev@.len() == len2 + 1,
            forall|q: int|
                0 <= q <= len2 ==> prev@[q] == ed_prefix(s1@, s2@, (i - 1) as nat, q as nat),
        decreases len1 + 1 - i,
    {
        let mut curr: Vec<usize> = Vec::new();
        curr.push(i);
        let c1 = s1.get_char(i - 1);
        let mut jj: usize = 1;
        while jj <= len2
            invariant
                1 <= jj <= len2 + 1,
                1 <= i <= len1,
                len1 == s1@.len(),
                len2 == s2@.len(),
                len1 + len2 < usize::MAX,
                c1 == s1@[i - 1],
                prev@.len() == len2 + 1,
                forall|q: int|
                    0 <= q <= len2 ==> prev@[q] == ed_prefix(s1@, s2@, (i - 1) as nat, q as nat),
                curr@.len() == jj,
                forall|q: int| 0 <= q < jj ==> curr@[q] == ed_prefix(s1@, s2@, i as nat, q as nat),
            decreases len2 + 1 - jj,
        {
            let c2 = s2.get_char(jj - 1);
            let cost: usize = if c1 == c2 {
                0
            } else {
                1
            };
            proof {
                lemma_ed_bound(s1@, s2@, (i - 1) as nat, jj as nat);
                lemma_ed_bound(s1@, s2@, i as nat, (jj - 1) as nat);
                lemma_ed_bound(s1@, s2@, (i - 1) as nat, (jj - 1) as nat);
            }
            let a = prev[jj] + 1;
            let b = curr[jj - 1] + 1;
            let c = prev[jj - 1] + cost;
            let m = if a <= b && a <= c {
                a
            } else if b <= c {
                b
            } else {
                c
            };
            curr.push(m);
            jj += 1;
        }
        prev = curr;
        i += 1;
    }
    prev[len2]
}

/// Whether the candidate at index `i` is the one the matcher returns: within
/// distance 2 of the target, no candidate is closer, and no earlier one is
/// as close.
pub open spec fn best_match_at(target: Seq<char>, cs: Seq<Seq<char>>, i: int) -> bool {
    &&& 0 <= i < cs.len()
    &&& edit_distance(target, cs[i]) <= 2
    &&& forall|j: int|
        0 <= j < cs.len() ==> edit_distance(target, #[trigger] cs[j]) >= edit_distance(
            target,
            cs[i],
        )
    &&& forall|j: int|
        0 <= j < i ==> edit_distance(target, #[trigger] cs[j]) > edit_distance(target, cs[i])
}

/// Find the most similar id among the candidates: the first one at minimal
/// edit distance from the target, provided that distance is at most 2.
/// Used only to suggest; never to resolve.
pub fn find_similar_id(target: &str, candidates: &Vec<String>) -> (r: Option<String>)
    requires
        forall|i: int|
            0 <= i < candidates@.len() ==> target@.len() + (#[trigger] candidates@[i])@.len()
                < usize::MAX,
    ensures
        match r {
            Some(c) => exists|i: int|
                #![trigger candidates.deep_view()[i]]
                best_match_at(target@, candidates.deep_view(), i) && c@ == candidates.deep_view()[i],
            None => forall|i: int|
                0 <= i < candidates@.len() ==> edit_distance(
                    target@,
                    #[trigger] candidates.deep_view()[i],
                ) > 2,
        },
{
    let ghost csv = candidates.deep_view();
    let mut best_idx: usize = 0;
    let mut best_dist: usize = 0;
    let mut have_best = false;
    let mut i: usize = 0;
    while i < candidates.len()
        invariant
            i <= candidates.len(),
            csv == candidates.deep_view(),
            forall|k: int|
                0 <= k < candidates@.len() ==> target@.len() + (#[trigger] candidates@[k])@.len()
                    < usize::MAX,
            !have_best ==> forall|k: int|
                0 <= k < i ==> edit_distance(target@, #[trigger] csv[k]) > 2,
            have_best ==> {
                &&& best_idx < i
                &&& best_dist == edit_distance(target@, csv[best_idx as int])
                &&& best_dist <= 2
                &&& forall|k: int|
                    0 <= k < i ==> edit_distance(target@, #[trigger] csv[k]) >= best_dist
                &&& forall|k: int|
                    0 <= k < best_idx ==> edit_distance(target@, #[trigger] csv[k]) > best_dist
            },
        decreases candidates.len() - i,
    {
        proof {
            assert(csv[i as int] == candidates@[i as int]@);
        }
        let d = levenshtein_distance(target, candidates[i].as_str());
        if d <= 2 {
            if !have_best {
                have_best = true;
                best_idx = i;
                best_dist = d;
            } else if d < best_dist {
                best_idx = i;
                best_dist = d;
            }
        }
        i += 1;
    }
    if have_best {
        proof {
            assert(best_match_at(target@, csv, best_idx as int));
        }
        Some(candidates[best_idx].clone())
    } else {
        None
    }
}


/// A candidate length cap under which summed lengths stay well inside
/// `usize`; ids and descriptions are far shorter in practice.
pub open spec fn suggest_cap() -> nat {
    1000000
}

/// A total version of the matcher for enriching errors: candidates longer
/// than the cap are ignored (they cannot be within distance 2 of a short id
/// anyway in practice, and a suggestion is cosmetic). A returned suggestion
/// is always one of the candidates, within edit distance 2 of the target;
/// nothing is suggested only when every candidate is over the cap (or the
/// target is) or farther than distance 2.
pub fn suggest_similar(target: &str, candidates: &Vec<String>) -> (r: Option<String>)
    ensures
        (r matches Some(c) ==> candidates.deep_view().contains(c@) && edit_distance(target@, c@)
            <= 2),
        (r is None ==> forall|i: int|
            0 <= i < candidates@.len() ==> (target@.len() > suggest_cap() || (
            #[trigger] candidates@[i])@.len() > suggest_cap() || edit_distance(
                target@,
                candidates.deep_view()[i],
            ) > 2)),
{
    let tlen = target.unicode_len();
    if tlen > 1000000 {
        return None;
    }
    let ghost csv = candidates.deep_view();
    let mut filtered: Vec<String> = Vec::new();
    let mut i: usize = 0;
    while i < candidates.len()
        invariant
            i <= candidates.len(),
            csv == candidates.deep_view(),
            target@.len() <= 1000000,
            forall|k: int| 0 <= k < filtered@.len() ==> csv.contains((#[trigger] filtered@[k])@),
            forall|k: int| 0 <= k < filtered@.len() ==> (#[trigger] filtered@[k])@.len() <= 1000000,
            forall|k: int|
                0 <= k < i ==> ((#[trigger] candidates@[k])@.len() > 1000000
                    || filtered.deep_view().contains(csv[k])),
        decreases candidates.len() - i,
    {
        proof {
            assert(csv[i as int] == candidates@[i as int]@);
        }
        let ghost old_dv = filtered.deep_view();
        if candidates[i].as_str().unicode_len() <= 1000000 {
            let c = candidates[i].clone();
            filtered.push(c);
            proof {
                assert(filtered.deep_view() =~= old_dv.push(csv[i as int]));
                assert(csv.contains(filtered@[filtered@.len() - 1]@)) by {
                    assert(filtered@[filtered@.len() - 1]@ == csv[i as int]);
                }
                assert(filtered.deep_view().contains(csv[i as int])) by {
                    assert(filtered.deep_view()[filtered.deep_view().len() - 1] == csv[i as int]);
                }
                assert forall|k: int|
                    0 <= k < i && old_dv.contains(#[trigger] csv[k]) implies filtered.deep_view()
                    .contains(csv[k]) by {
                    let j = choose|j: int| 0 <= j < old_dv.len() && old_dv[j] == csv[k];
                    assert(filtered.deep_view()[j] == csv[k]);
                }
            }
        }
        i += 1;
    }
    assert forall|k: int|
        0 <= k < filtered@.len() implies target@.len() + (#[trigger] filtered@[k])@.len()
        < usize::MAX by {
        assert(filtered@[k]@.len() <= 1000000);
    }
    let r = find_similar_id(target, &filtered);
    match r {
        Some(c) => {
            proof {
                let i0 = choose|i0: int|
                    best_match_at(target@, filtered.deep_view(), i0) && c@ == filtered.deep_view()[i0];
                assert(filtered.deep_view()[i0] == filtered@[i0]@);
                assert(csv.contains(filtered@[i0]@));
            }
            Some(c)
        },
        None => {
            proof {
                assert forall|q: int|
                    0 <= q < candidates@.len() && (#[trigger] candidates@[q])@.len()
                    <= suggest_cap() implies edit_distance(target@, csv[q]) > 2 by {
                    assert(filtered.deep_view().contains(csv[q]));
                    let j = choose|j: int|
                        0 <= j < filtered.deep_view().len() && filtered.deep_view()[j] == csv[q];
                    assert(edit_distance(target@, filtered.deep_view()[j]) > 2);
                }
            }
            None
        },
    }
}

} // verus!
