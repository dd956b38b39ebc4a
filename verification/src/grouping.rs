//! The grouped, unpaginated revision-listing dialect: the server answers
//! every matching revision partitioned into buckets keyed by branch, and
//! a client wanting one page must flatten the buckets, optionally filter
//! by branch, sort by creation time (newest first, stable), and slice
//! locally.

use vstd::multiset::Multiset;
use vstd::prelude::*;
use vstd::string::StrSliceExecFns;

use crate::codec::decoded_of;
use crate::codec::percent_decode;
use crate::handlers::spec_page_slice;
use crate::revision::Revision;
use crate::state::MockState;
use crate::strutil::last_index_of;
use crate::strutil::rfind_char;
use crate::strutil::str_eq;

verus! {

/// The branch bucket of a revision locator: the characters after the
/// last `$`, or the sentinel "unknown" bucket when the locator has none.
pub open spec fn spec_branch_of(loc: Seq<char>) -> Seq<char> {
    match last_index_of(loc, '$') {
        Some(i) => loc.subrange(i + 1, loc.len() as int),
        None => "unknown"@,
    }
}

/// The predicate marking revisions of one branch bucket.
pub open spec fn branch_is(b: Seq<char>) -> spec_fn(Revision) -> bool {
    |v: Revision| spec_branch_of(v.locator@) == b
}

/// Compute the branch bucket of a locator.
pub fn branch_of(loc: &str) -> (r: String)
    ensures
        r@ == spec_branch_of(loc@),
{
    let n = loc.unicode_len();
    proof {
        crate::strutil::lemma_last_index_of(loc@, '$');
    }
    match rfind_char(loc, '$') {
        Some(i) => loc.substring_char(i + 1, n).to_owned(),
        None => "unknown".to_owned(),
    }
}

/// The distinct branch buckets of `revs`, in order of first appearance.
pub open spec fn spec_branches(revs: Seq<Revision>) -> Seq<Seq<char>>
    decreases revs.len(),
{
    if revs.len() == 0 {
        Seq::empty()
    } else {
        let prev = spec_branches(revs.drop_last());
        let b = spec_branch_of(revs.last().locator@);
        if prev.contains(b) {
            prev
        } else {
            prev.push(b)
        }
    }
}

/// One branch bucket of a grouped revision listing.
pub struct RevisionGroup {
    /// The branch this bucket is keyed by.
    pub branch: String,
    /// The bucket's revisions, in store order.
    pub revisions: Vec<Revision>,
}

/// The model of a [`RevisionGroup`].
pub struct RevisionGroupView {
    pub branch: String,
    pub revisions: Seq<Revision>,
}

impl View for RevisionGroup {
    type V = RevisionGroupView;

    open spec fn view(&self) -> RevisionGroupView {
        RevisionGroupView { branch: self.branch, revisions: self.revisions@ }
    }
}

/// The distinct branch buckets of a sequence are pairwise distinct.
pub proof fn lemma_branches_distinct(revs: Seq<Revision>)
    ensures
        forall|a: int, b: int|
            0 <= a < b < spec_branches(revs).len() ==> spec_branches(revs)[a] != spec_branches(
                revs,
            )[b],
    decreases revs.len(),
{
    if revs.len() > 0 {
        lemma_branches_distinct(revs.drop_last());
        let prev = spec_branches(revs.drop_last());
        let b = spec_branch_of(revs.last().locator@);
        if !prev.contains(b) {
            assert forall|x: int, y: int|
                0 <= x < y < spec_branches(revs).len() implies spec_branches(revs)[x]
                != spec_branches(revs)[y] by {
                if y == spec_branches(revs).len() - 1 {
                    assert(spec_branches(revs)[x] == prev[x]);
                    assert(!prev.contains(b));
                    assert(prev[x] != b) by {
                        if prev[x] == b {
                            assert(prev.contains(b));
                        }
                    }
                }
            }
        }
    }
}

/// Partition `revs` into branch buckets: bucket keys are the distinct
/// branches in order of first appearance, and each bucket holds exactly
/// the revisions of its branch in input order.
pub fn group_by_branch(revs: &Vec<Revision>) -> (r: Vec<RevisionGroup>)
    ensures
        r@.len() == spec_branches(revs@).len(),
        forall|g: int|
            0 <= g < r@.len() ==> (#[trigger] r@[g])@.branch@ == spec_branches(revs@)[g]
                && r@[g]@.revisions == revs@.filter(branch_is(spec_branches(revs@)[g])),
{
    let mut out: Vec<RevisionGroup> = Vec::new();
    let n = revs.len();
    let mut i: usize = 0;
    while i < n
        invariant
            i <= n,
            n == revs@.len(),
            out@.len() == spec_branches(revs@.subrange(0, i as int)).len(),
            forall|g: int|
                0 <= g < out@.len() ==> (#[trigger] out@[g])@.branch@ == spec_branches(
                    revs@.subrange(0, i as int),
                )[g] && out@[g]@.revisions == revs@.subrange(0, i as int).filter(
                    branch_is(spec_branches(revs@.subrange(0, i as int))[g]),
                ),
        decreases n - i,
    {
        let ghost prefix = revs@.subrange(0, i as int);
        let ghost prefix1 = revs@.subrange(0, i + 1);
        let ghost elem = revs@[i as int];
        let ghost eb = spec_branch_of(elem.locator@);
        proof {
            assert(prefix1 =~= prefix.push(elem));
            assert(prefix1.drop_last() =~= prefix);
            assert(prefix1.last() == elem);
            lemma_branches_distinct(prefix);
        }
        let b = branch_of(revs[i].locator.as_str());
        let m = out.len();
        let mut g: usize = 0;
        let mut found = false;
        while g < m
            invariant_except_break
                g <= m,
                found == false,
                forall|h: int| 0 <= h < g ==> (#[trigger] out@[h])@.branch@ != eb,
            invariant
                m == out@.len(),
                b@ == eb,
            ensures
                found ==> g < m && out@[g as int]@.branch@ == eb,
                !found ==> forall|h: int| 0 <= h < m ==> (#[trigger] out@[h])@.branch@ != eb,
            decreases m - g,
        {
            if str_eq(out[g].branch.as_str(), b.as_str()) {
                found = true;
                break ;
            }
            g = g + 1;
        }
        if found {
            proof {
                assert(spec_branches(prefix)[g as int] == eb);
                assert(spec_branches(prefix).contains(eb));
                assert(spec_branches(prefix1) == spec_branches(prefix));
            }
            let ghost oldout = out@;
            let mut grp = out.remove(g);
            grp.revisions.push(revs[i].clone());
            let ghost ggrp = grp;
            out.insert(g, grp);
            proof {
                assert(out@ =~= oldout.update(g as int, ggrp));
                assert forall|h: int| 0 <= h < out@.len() implies (#[trigger] out@[h])@.branch@
                    == spec_branches(prefix1)[h] && out@[h]@.revisions == prefix1.filter(
                    branch_is(spec_branches(prefix1)[h]),
                ) by {
                    let predh = branch_is(spec_branches(prefix)[h]);
                    prefix.lemma_filter_push(elem, predh);
                    if h == g {
                        assert(predh(elem));
                        assert(ggrp@.revisions =~= oldout[h]@.revisions.push(elem));
                    } else {
                        assert(out@[h] == oldout[h]);
                        assert(spec_branches(prefix)[h] != eb);
                        assert(!predh(elem));
                    }
                }
            }
        } else {
            proof {
                assert(!spec_branches(prefix).contains(eb)) by {
                    if spec_branches(prefix).contains(eb) {
                        let w = choose|w: int|
                            0 <= w < spec_branches(prefix).len() && spec_branches(prefix)[w] == eb;
                        assert(out@[w]@.branch@ == eb);
                    }
                }
                assert(spec_branches(prefix1) == spec_branches(prefix).push(eb));
            }
            let mut bucket: Vec<Revision> = Vec::new();
            bucket.push(revs[i].clone());
            out.push(RevisionGroup { branch: b, revisions: bucket });
            proof {
                assert forall|h: int| 0 <= h < out@.len() implies (#[trigger] out@[h])@.branch@
                    == spec_branches(prefix1)[h] && out@[h]@.revisions == prefix1.filter(
                    branch_is(spec_branches(prefix1)[h]),
                ) by {
                    let predh = branch_is(spec_branches(prefix1)[h]);
                    prefix.lemma_filter_push(elem, predh);
                    if h == out@.len() - 1 {
                        assert(spec_branches(prefix1)[h] == eb);
                        assert(predh(elem));
                        assert forall|k: int| 0 <= k < prefix.len() implies !predh(
                            #[trigger] prefix[k],
                        ) by {
                            lemma_branch_in_branches(prefix, k);
                            if predh(prefix[k]) {
                                assert(spec_branches(prefix).contains(eb));
                            }
                        }
                        prefix.lemma_all_neg_filter_empty(predh);
                        assert(prefix.filter(predh) =~= Seq::<Revision>::empty());
                        assert(out@[h]@.revisions =~= prefix.filter(predh).push(elem));
                    } else {
                        assert(spec_branches(prefix1)[h] == spec_branches(prefix)[h]);
                        assert(spec_branches(prefix)[h] != eb);
                        assert(!predh(elem));
                    }
                }
            }
        }
        i = i + 1;
    }
    proof {
        assert(revs@.subrange(0, n as int) =~= revs@);
    }
    out
}

/// The branch of each revision occurs among the branch buckets of the
/// whole sequence.
pub proof fn lemma_branch_in_branches(revs: Seq<Revision>, k: int)
    requires
        0 <= k < revs.len(),
    ensures
        spec_branches(revs).contains(spec_branch_of(revs[k].locator@)),
    decreases revs.len(),
{
    if k == revs.len() - 1 {
        let prev = spec_branches(revs.drop_last());
        let b = spec_branch_of(revs.last().locator@);
        if !prev.contains(b) {
            assert(spec_branches(revs) == prev.push(b));
            assert(spec_branches(revs)[prev.len() as int] == b);
        } else {
            let w = choose|w: int| 0 <= w < prev.len() && prev[w] == b;
            assert(spec_branches(revs)[w] == b);
        }
    } else {
        lemma_branch_in_branches(revs.drop_last(), k);
        assert(revs.drop_last()[k] == revs[k]);
        let prev = spec_branches(revs.drop_last());
        let bk = spec_branch_of(revs[k].locator@);
        let w = choose|w: int| 0 <= w < prev.len() && prev[w] == bk;
        let b = spec_branch_of(revs.last().locator@);
        if prev.contains(b) {
            assert(spec_branches(revs)[w] == bk);
        } else {
            assert(spec_branches(revs) == prev.push(b));
            assert(spec_branches(revs)[w] == bk);
        }
    }
}

/// List the revisions of a project (by percent-encoded locator) in the
/// grouped, unpaginated dialect: every matching revision, partitioned
/// into branch buckets, with no page applied by the server.
pub fn list_revisions_response(state: &MockState, raw_project_locator: &String) -> (r: Vec<
    RevisionGroup,
>)
    ensures
        ({
            let fil = state.revisions_of_project(decoded_of(raw_project_locator@));
            &&& r@.len() == spec_branches(fil).len()
            &&& forall|g: int|
                0 <= g < r@.len() ==> (#[trigger] r@[g])@.branch@ == spec_branches(fil)[g]
                    && r@[g]@.revisions == fil.filter(branch_is(spec_branches(fil)[g]))
        }),
{
    let decoded = percent_decode(raw_project_locator);
    let matching = state.list_revisions_for_project(decoded.as_str());
    let ghost fil = state.revisions_of_project(decoded@);
    let mut owned: Vec<Revision> = Vec::new();
    let n = matching.len();
    let mut i: usize = 0;
    while i < n
        invariant
            i <= n,
            n == matching@.len(),
            n == fil.len(),
            forall|j: int| 0 <= j < n ==> *(#[trigger] matching@[j]) == fil[j],
            owned@ =~= fil.subrange(0, i as int),
        decreases n - i,
    {
        owned.push(matching[i].clone());
        proof {
            assert(owned@ =~= fil.subrange(0, i + 1));
        }
        i = i + 1;
    }
    proof {
        assert(owned@ =~= fil);
    }
    group_by_branch(&owned)
}


/// The flattening of a grouped response: the buckets of the distinct
/// branches in first-appearance order, concatenated.
pub open spec fn spec_flatten_grouped(revs: Seq<Revision>) -> Seq<Revision> {
    spec_branches(revs).map_values(|b: Seq<char>| revs.filter(branch_is(b))).flatten()
}

/// Concatenate the buckets of a grouped response, in bucket order.
pub fn flatten_groups(groups: &Vec<RevisionGroup>) -> (r: Vec<Revision>)
    ensures
        r@ == groups@.map_values(|g: RevisionGroup| g@.revisions).flatten(),
{
    let mut out: Vec<Revision> = Vec::new();
    let n = groups.len();
    let mut i: usize = 0;
    proof {
        assert(groups@.subrange(0, 0).map_values(|g: RevisionGroup| g@.revisions).flatten()
            =~= Seq::<Revision>::empty());
    }
    while i < n
        invariant
            i <= n,
            n == groups@.len(),
            out@ == groups@.subrange(0, i as int).map_values(
                |g: RevisionGroup| g@.revisions,
            ).flatten(),
        decreases n - i,
    {
        let bucket = &groups[i].revisions;
        let m = bucket.len();
        let mut j: usize = 0;
        while j < m
            invariant
                j <= m,
                i < n,
                n == groups@.len(),
                m == groups@[i as int]@.revisions.len(),
                out@ == groups@.subrange(0, i as int).map_values(
                    |g: RevisionGroup| g@.revisions,
                ).flatten() + groups@[i as int]@.revisions.subrange(0, j as int),
            decreases m - j,
        {
            out.push(groups[i].revisions[j].clone());
            proof {
                assert(groups@[i as int]@.revisions.subrange(0, j + 1)
                    =~= groups@[i as int]@.revisions.subrange(0, j as int).push(
                    groups@[i as int]@.revisions[j as int],
                ));
                assert(out@ =~= groups@.subrange(0, i as int).map_values(
                    |g: RevisionGroup| g@.revisions,
                ).flatten() + groups@[i as int]@.revisions.subrange(0, j + 1));
            }
            j = j + 1;
        }
        proof {
            let prefix = groups@.subrange(0, i as int).map_values(
                |g: RevisionGroup| g@.revisions,
            );
            assert(groups@.subrange(0, i + 1).map_values(|g: RevisionGroup| g@.revisions)
                =~= prefix.push(groups@[i as int]@.revisions));
            prefix.lemma_flatten_push(groups@[i as int]@.revisions);
            assert(groups@[i as int]@.revisions.subrange(0, m as int)
                =~= groups@[i as int]@.revisions);
        }
        i = i + 1;
    }
    proof {
        assert(groups@.subrange(0, n as int) =~= groups@);
    }
    out
}

/// Keep only the revisions of one branch bucket; no filter keeps all.
pub fn filter_by_branch(revs: Vec<Revision>, branch: Option<&str>) -> (r: Vec<Revision>)
    ensures
        r@ == (match branch {
            Some(b) => revs@.filter(branch_is(b@)),
            None => revs@,
        }),
{
    match branch {
        None => revs,
        Some(b) => {
            let ghost pred = branch_is(b@);
            let mut out: Vec<Revision> = Vec::new();
            let n = revs.len();
            let mut i: usize = 0;
            proof {
                assert(revs@.subrange(0, 0).filter(pred) =~= out@);
            }
            while i < n
                invariant
                    i <= n,
                    n == revs@.len(),
                    pred == branch_is(b@),
                    out@ == revs@.subrange(0, i as int).filter(pred),
                decreases n - i,
            {
                let vb = branch_of(revs[i].locator.as_str());
                let matches = str_eq(vb.as_str(), b);
                proof {
                    assert(matches == pred(revs@[i as int]));
                    let prefix = revs@.subrange(0, i as int);
                    assert(revs@.subrange(0, i + 1) =~= prefix.push(revs@[i as int]));
                    prefix.lemma_filter_push(revs@[i as int], pred);
                }
                if matches {
                    out.push(revs[i].clone());
                }
                i = i + 1;
            }
            proof {
                assert(revs@.subrange(0, n as int) =~= revs@);
            }
            out
        },
    }
}

/// The sort key of a revision: its creation time, with an absent time
/// ordered before (older than) every recorded one.
pub open spec fn spec_time_key(v: Revision) -> int {
    match v.created_at {
        Some(t) => t as int,
        None => (i64::MIN as int) - 1,
    }
}

/// Key/position pairs of a revision sequence: each revision's sort key
/// together with its original index.
pub open spec fn spec_key_pairs(s: Seq<Revision>) -> Seq<(int, int)> {
    Seq::new(s.len(), |i: int| (spec_time_key(s[i]), i))
}

/// "Comes no later than" on key/position pairs: a larger key (newer
/// revision) comes first; equal keys keep the original relative order
/// (lower index first). A total order.
pub open spec fn pair_order() -> spec_fn((int, int), (int, int)) -> bool {
    |a: (int, int), b: (int, int)| a.0 > b.0 || (a.0 == b.0 && a.1 <= b.1)
}

/// "Comes strictly before" on key/position pairs.
pub open spec fn spec_strictly_before(a: (int, int), b: (int, int)) -> bool {
    a.0 > b.0 || (a.0 == b.0 && a.1 < b.1)
}

/// [`pair_order`] is a total order.
pub proof fn lemma_pair_order_total()
    ensures
        vstd::relations::total_ordering(pair_order()),
{
    let leq = pair_order();
    assert forall|x: (int, int), y: (int, int), z: (int, int)|
        #[trigger] leq(x, y) && #[trigger] leq(y, z) implies leq(x, z) by {}
    assert forall|x: (int, int), y: (int, int)| #[trigger] leq(x, y) && #[trigger] leq(y, x)
        implies x == y by {}
    assert forall|x: (int, int), y: (int, int)| !(#[trigger] leq(x, y)) implies leq(y, x) by {}
}

/// The revisions of `s` sorted by creation time, newest first; for equal
/// creation times the original relative order is kept.
pub open spec fn spec_sorted_by_time(s: Seq<Revision>) -> Seq<Revision> {
    spec_key_pairs(s).sort_by(pair_order()).map_values(|p: (int, int)| s[p.1])
}

/// Whether revision `a` (at original position `ai`) comes strictly
/// before revision `b` (at original position `bi`) in the sorted order.
fn strictly_before(a: &Revision, ai: usize, b: &Revision, bi: usize) -> (r: bool)
    ensures
        r == spec_strictly_before(
            (spec_time_key(*a), ai as int),
            (spec_time_key(*b), bi as int),
        ),
{
    let gt = match (&a.created_at, &b.created_at) {
        (Some(x), Some(y)) => *x > *y,
        (Some(_), None) => true,
        (None, Some(_)) => false,
        (None, None) => false,
    };
    let eq = match (&a.created_at, &b.created_at) {
        (Some(x), Some(y)) => *x == *y,
        (None, None) => true,
        _ => false,
    };
    gt || (eq && ai < bi)
}

/// Sort revisions by creation time, newest first, keeping the original
/// relative order of revisions with equal creation times.
pub fn sort_revisions_by_time(revs: Vec<Revision>) -> (r: Vec<Revision>)
    ensures
        r@ == spec_sorted_by_time(revs@),
{
    let ghost kp = spec_key_pairs(revs@);
    let ghost leq = pair_order();
    let mut out: Vec<Revision> = Vec::new();
    let mut idxs: Vec<usize> = Vec::new();
    let ghost mut pairs: Seq<(int, int)> = Seq::empty();
    let n = revs.len();
    let mut i: usize = 0;
    proof {
        assert(kp.subrange(0, 0).to_multiset() =~= pairs.to_multiset()) by {
            broadcast use vstd::seq_lib::group_to_multiset_ensures;

            assert(kp.subrange(0, 0) =~= Seq::<(int, int)>::empty());
        }
    }
    while i < n
        invariant
            i <= n,
            n == revs@.len(),
            kp == spec_key_pairs(revs@),
            leq == pair_order(),
            out@.len() == pairs.len(),
            idxs@.len() == pairs.len(),
            forall|k: int|
                0 <= k < pairs.len() ==> 0 <= (#[trigger] pairs[k]).1 < n && out@[k]
                    == revs@[pairs[k].1] && idxs@[k] as int == pairs[k].1 && pairs[k]
                    == kp[pairs[k].1],
            vstd::relations::sorted_by(pairs, leq),
            pairs.to_multiset() == kp.subrange(0, i as int).to_multiset(),
        decreases n - i,
    {
        let m = out.len();
        let mut pos: usize = 0;
        while pos < m
            invariant_except_break
                pos <= m,
                forall|p: int|
                    0 <= p < pos ==> !spec_strictly_before(
                        kp[i as int],
                        #[trigger] pairs[p],
                    ),
            invariant
                m == out@.len(),
                m == pairs.len(),
                i < n,
                n == revs@.len(),
                kp == spec_key_pairs(revs@),
                out@.len() == pairs.len(),
                idxs@.len() == pairs.len(),
                forall|k: int|
                    0 <= k < pairs.len() ==> 0 <= (#[trigger] pairs[k]).1 < n && out@[k]
                        == revs@[pairs[k].1] && idxs@[k] as int == pairs[k].1 && pairs[k]
                        == kp[pairs[k].1],
            ensures
                pos <= m,
                forall|p: int|
                    0 <= p < pos ==> !spec_strictly_before(
                        kp[i as int],
                        #[trigger] pairs[p],
                    ),
                pos < m ==> spec_strictly_before(kp[i as int], pairs[pos as int]),
            decreases m - pos,
        {
            if strictly_before(&revs[i], i, &out[pos], idxs[pos]) {
                break ;
            }
            pos = pos + 1;
        }
        let ghost oldpairs = pairs;
        out.insert(pos, revs[i].clone());
        idxs.insert(pos, i);
        proof {
            pairs = pairs.insert(pos as int, kp[i as int]);
        }
        proof {
            assert(kp[i as int] == (spec_time_key(revs@[i as int]), i as int));
            assert forall|a: int, b: int| 0 <= a < b < pairs.len() implies leq(
                #[trigger] pairs[a],
                #[trigger] pairs[b],
            ) by {
                if a < pos && b == pos {
                    assert(!spec_strictly_before(kp[i as int], oldpairs[a]));
                } else if a == pos && b > pos {
                    assert(spec_strictly_before(kp[i as int], oldpairs[pos as int]));
                    if b - 1 > pos {
                        assert(leq(oldpairs[pos as int], oldpairs[b - 1]));
                    }
                } else if a < pos && b > pos {
                    assert(leq(oldpairs[a], oldpairs[b - 1]));
                } else if b < pos {
                    assert(leq(oldpairs[a], oldpairs[b]));
                } else if a > pos {
                    assert(leq(oldpairs[a - 1], oldpairs[b - 1]));
                }
            }
            assert(pairs =~= oldpairs.subrange(0, pos as int) + seq![kp[i as int]]
                + oldpairs.subrange(pos as int, oldpairs.len() as int));
            assert(oldpairs =~= oldpairs.subrange(0, pos as int) + oldpairs.subrange(
                pos as int,
                oldpairs.len() as int,
            ));
            broadcast use vstd::seq_lib::group_to_multiset_ensures;

            vstd::seq_lib::lemma_multiset_commutative(
                oldpairs.subrange(0, pos as int),
                seq![kp[i as int]] + oldpairs.subrange(pos as int, oldpairs.len() as int),
            );
            vstd::seq_lib::lemma_multiset_commutative(
                seq![kp[i as int]],
                oldpairs.subrange(pos as int, oldpairs.len() as int),
            );
            vstd::seq_lib::lemma_multiset_commutative(
                oldpairs.subrange(0, pos as int),
                oldpairs.subrange(pos as int, oldpairs.len() as int),
            );
            assert(seq![kp[i as int]].to_multiset() =~= Multiset::<(int, int)>::empty().insert(
                kp[i as int],
            )) by {
                assert(seq![kp[i as int]] =~= Seq::<(int, int)>::empty().push(kp[i as int]));
            }
            assert(kp.subrange(0, i + 1) =~= kp.subrange(0, i as int).push(kp[i as int]));
            assert(pairs.to_multiset() =~= kp.subrange(0, i + 1).to_multiset());
        }
        i = i + 1;
    }
    proof {
        assert(kp.subrange(0, n as int) =~= kp);
        lemma_pair_order_total();
        kp.lemma_sort_by_ensures(leq);
        vstd::seq_lib::lemma_sorted_unique(pairs, kp.sort_by(leq), leq);
        assert(pairs == kp.sort_by(leq));
        assert(out@ =~= spec_sorted_by_time(revs@));
    }
    out
}

/// One page of an already flattened and sorted revision listing: the
/// window `[(page-1)*count, (page-1)*count + count)` clamped to the
/// bounds; a start outside them yields an empty page, never an error.
pub fn slice_revision_page(revs: &Vec<Revision>, page: u32, count: u32) -> (r: Vec<Revision>)
    ensures
        r@ == spec_page_slice(revs@, page, count),
{
    let ghost gs = revs@;
    let ghost slice = spec_page_slice(gs, page, count);
    let mut out: Vec<Revision> = Vec::new();
    if page >= 1 {
        let pm1 = page as u64 - 1;
        let cw = count as u64;
        assert(pm1 * cw <= 0xffff_fffeu64 * 0xffff_ffffu64) by (nonlinear_arith)
            requires
                pm1 <= 0xffff_fffeu64,
                cw <= 0xffff_ffffu64,
        ;
        let start = pm1 * cw;
        if start < revs.len() as u64 {
            let s = start as usize;
            let e = if count as usize <= revs.len() - s {
                s + count as usize
            } else {
                revs.len()
            };
            proof {
                assert(slice == gs.subrange(s as int, e as int));
            }
            let mut k = s;
            while k < e
                invariant
                    s <= k <= e <= revs@.len(),
                    gs == revs@,
                    slice == gs.subrange(s as int, e as int),
                    out@.len() == k - s,
                    forall|j: int| 0 <= j < out@.len() ==> (#[trigger] out@[j]) == slice[j],
                decreases e - k,
            {
                out.push(revs[k].clone());
                k = k + 1;
            }
            proof {
                assert(out@ =~= slice);
            }
        } else {
            proof {
                assert(slice =~= Seq::<Revision>::empty());
                assert(out@ =~= slice);
            }
        }
    } else {
        proof {
            assert((page as int - 1) * (count as int) == -(count as int)) by (nonlinear_arith)
                requires
                    page == 0,
            ;
            assert(slice =~= Seq::<Revision>::empty());
            assert(out@ =~= slice);
        }
    }
    out
}

/// Grouped-revision flattening is deterministic and stable: in the
/// sorted order that a client derives from a grouped response, any two
/// revisions with the same creation time keep their original relative
/// order, and the sorted order is a function of the input sequence alone.
pub proof fn lemma_sorted_by_time_stable(s: Seq<Revision>)
    ensures
        spec_sorted_by_time(s).len() == s.len(),
        forall|a: int, b: int|
            0 <= a < b < s.len() && (#[trigger] spec_key_pairs(s).sort_by(pair_order())[a]).0 == (
            #[trigger] spec_key_pairs(s).sort_by(pair_order())[b]).0
                ==> spec_key_pairs(s).sort_by(pair_order())[a].1 < spec_key_pairs(s).sort_by(
                pair_order(),
            )[b].1,
{
    let kp = spec_key_pairs(s);
    let leq = pair_order();
    lemma_pair_order_total();
    kp.lemma_sort_by_ensures(leq);
    broadcast use vstd::seq_lib::group_to_multiset_ensures;

    assert(kp.to_multiset().len() == kp.len());
    assert(kp.sort_by(leq).to_multiset().len() == kp.sort_by(leq).len());
    assert forall|a: int, b: int|
        0 <= a < b < s.len() && (#[trigger] kp.sort_by(leq)[a]).0 == (
        #[trigger] kp.sort_by(leq)[b]).0 implies kp.sort_by(leq)[a].1 < kp.sort_by(leq)[b].1 by {
        let x = kp.sort_by(leq)[a];
        let y = kp.sort_by(leq)[b];
        assert(leq(x, y));
        if x.1 == y.1 {
            assert(x == y);
            assert(kp.no_duplicates()) by {
                assert forall|i: int, j: int|
                    0 <= i < kp.len() && 0 <= j < kp.len() && i != j implies kp[i] != kp[j] by {
                    assert(kp[i].1 == i);
                    assert(kp[j].1 == j);
                }
            }
            kp.lemma_multiset_has_no_duplicates();
            kp.sort_by(leq).lemma_multiset_has_no_duplicates_conv();
        }
    }
}

} // verus!
