use vstd::prelude::*;

use crate::matches::ImageMatch;
use crate::sites::Sites;

verus! {

/// The position of `site` in a priority list; a site that is not listed
/// ranks after every listed one.
pub open spec fn site_rank(order: Seq<Sites>, site: Sites) -> nat
    decreases order.len(),
{
    if order.len() == 0 {
        0
    } else if order[0] == site {
        0
    } else {
        1 + site_rank(order.drop_first(), site)
    }
}

/// The matches of rank `k`, in their input order.
pub open spec fn rank_bucket(order: Seq<Sites>, ms: Seq<ImageMatch>, k: nat) -> Seq<ImageMatch>
    decreases ms.len(),
{
    if ms.len() == 0 {
        ms
    } else {
        let rest = rank_bucket(order, ms.drop_last(), k);
        if site_rank(order, ms.last().site) == k {
            rest.push(ms.last())
        } else {
            rest
        }
    }
}

/// The matches of ranks below `k`: all of rank 0, then all of rank 1, and
/// so on, each group in its input order.
pub open spec fn ranked_below(order: Seq<Sites>, ms: Seq<ImageMatch>, k: nat) -> Seq<ImageMatch>
    decreases k,
{
    if k == 0 {
        Seq::empty()
    } else {
        ranked_below(order, ms, (k - 1) as nat) + rank_bucket(order, ms, (k - 1) as nat)
    }
}

/// The matches stably sorted by the rank of their site.
pub open spec fn sorted_by_sites(order: Seq<Sites>, ms: Seq<ImageMatch>) -> Seq<ImageMatch> {
    ranked_below(order, ms, order.len() + 1)
}

proof fn lemma_rank_at_most_len(order: Seq<Sites>, site: Sites)
    ensures
        site_rank(order, site) <= order.len(),
    decreases order.len(),
{
    if order.len() > 0 && order[0] != site {
        lemma_rank_at_most_len(order.drop_first(), site);
    }
}

/// Finds the rank of a site in a priority list.
pub fn rank_of(order: &Vec<Sites>, site: Sites) -> (r: usize)
    ensures
        r == site_rank(order@, site),
{
    let mut i: usize = 0;
    assert(order@.subrange(0, order@.len() as int) =~= order@);
    while i < order.len()
        invariant
            i <= order@.len(),
            site_rank(order@, site) == i + site_rank(order@.subrange(i as int, order@.len() as int), site),
        decreases order@.len() - i,
    {
        let tail = Ghost(order@.subrange(i as int, order@.len() as int));
        if order[i] == site {
            return i;
        }
        proof {
            assert(tail@.drop_first() =~= order@.subrange(i + 1, order@.len() as int));
        }
        i = i + 1;
    }
    i
}

/// Sorts matches by the rank of their site in `order`, keeping the input
/// order among matches of equal rank; matches of unlisted sites come last.
pub fn sort_by_sites(order: &Vec<Sites>, matches: &Vec<ImageMatch>) -> (r: Vec<ImageMatch>)
    requires
        order@.len() < usize::MAX,
    ensures
        r@ == sorted_by_sites(order@, matches@),
{
    let mut r: Vec<ImageMatch> = Vec::new();
    let mut ranks: Vec<usize> = Vec::new();
    let mut j: usize = 0;
    while j < matches.len()
        invariant
            j <= matches@.len(),
            ranks@.len() == j,
            forall|t: int| 0 <= t < j ==> ranks@[t] == site_rank(order@, #[trigger] matches@[t].site),
        decreases matches@.len() - j,
    {
        let k = rank_of(order, matches[j].site);
        ranks.push(k);
        j = j + 1;
    }
    let mut k: usize = 0;
    while k <= order.len()
        invariant
            k <= order@.len() + 1,
            order@.len() < usize::MAX,
            ranks@.len() == matches@.len(),
            forall|t: int| 0 <= t < matches@.len() ==> ranks@[t] == site_rank(order@, #[trigger] matches@[t].site),
            r@ == ranked_below(order@, matches@, k as nat),
        decreases order@.len() + 1 - k,
    {
        let ghost before = r@;
        let mut i: usize = 0;
        while i < matches.len()
            invariant
                i <= matches@.len(),
                ranks@.len() == matches@.len(),
                forall|t: int| 0 <= t < matches@.len() ==> ranks@[t] == site_rank(order@, #[trigger] matches@[t].site),
                r@ == before + rank_bucket(order@, matches@.subrange(0, i as int), k as nat),
            decreases matches@.len() - i,
        {
            proof {
                assert(matches@.subrange(0, i + 1).drop_last() =~= matches@.subrange(0, i as int));
            }
            if ranks[i] == k {
                r.push(matches[i].duplicate());
                proof {
                    assert(r@ =~= before + rank_bucket(order@, matches@.subrange(0, i + 1), k as nat));
                }
            }
            i = i + 1;
        }
        assert(matches@.subrange(0, matches@.len() as int) =~= matches@);
        k = k + 1;
    }
    r
}

/// The first match of each site, in order, as the site and its URL.
pub open spec fn firsts_spec(ms: Seq<ImageMatch>) -> Seq<ImageMatch>
    decreases ms.len(),
{
    if ms.len() == 0 {
        ms
    } else {
        let rest = firsts_spec(ms.drop_last());
        if has_site(rest, ms.last().site) {
            rest
        } else {
            rest.push(ms.last())
        }
    }
}

/// Some match in `ms` is on `site`.
pub open spec fn has_site(ms: Seq<ImageMatch>, site: Sites) -> bool {
    exists|i: int| 0 <= i < ms.len() && (#[trigger] ms[i]).site == site
}

/// The list of (site, URL) pairs holds the site and URL of each match.
pub open spec fn links_of(r: Seq<(Sites, String)>, ms: Seq<ImageMatch>) -> bool {
    &&& r.len() == ms.len()
    &&& forall|i: int| 0 <= i < ms.len() ==> (#[trigger] r[i]).0 == ms[i].site && r[i].1@ == ms[i].url@
}

/// Reduces a list of matches to the first match of each site.
pub fn first_of_each_site(matches: &Vec<ImageMatch>) -> (r: Vec<(Sites, String)>)
    ensures
        links_of(r@, firsts_spec(matches@)),
{
    let mut r: Vec<(Sites, String)> = Vec::new();
    let mut i: usize = 0;
    while i < matches.len()
        invariant
            i <= matches@.len(),
            links_of(r@, firsts_spec(matches@.subrange(0, i as int))),
        decreases matches@.len() - i,
    {
        let ghost f = firsts_spec(matches@.subrange(0, i as int));
        proof {
            assert(matches@.subrange(0, i + 1).drop_last() =~= matches@.subrange(0, i as int));
        }
        let site = matches[i].site;
        let mut seen = false;
        let mut j: usize = 0;
        while j < r.len()
            invariant
                j <= r@.len(),
                links_of(r@, f),
                seen <==> exists|t: int| 0 <= t < j && (#[trigger] f[t]).site == site,
            decreases r@.len() - j,
        {
            if r[j].0 == site {
                seen = true;
            }
            j = j + 1;
        }
        if !seen {
            r.push((site, matches[i].url.clone()));
        }
        i = i + 1;
    }
    assert(matches@.subrange(0, matches@.len() as int) =~= matches@);
    r
}

/// No match before position `k` is on the site of the match at `k`.
pub open spec fn is_first_of_site(ms: Seq<ImageMatch>, k: int) -> bool {
    forall|j: int| 0 <= j < k ==> (#[trigger] ms[j]).site != ms[k].site
}

/// First-of-each-site keeps each site at most once, keeps for each site
/// the earliest match on it, and leaves out no site of the input.
pub proof fn lemma_first_of_each_site(ms: Seq<ImageMatch>)
    ensures
        forall|i: int, j: int|
            0 <= i < j < firsts_spec(ms).len() ==> (#[trigger] firsts_spec(ms)[i]).site
                != (#[trigger] firsts_spec(ms)[j]).site,
        forall|i: int|
            0 <= i < firsts_spec(ms).len() ==> exists|k: int|
                0 <= k < ms.len() && ms[k] == #[trigger] firsts_spec(ms)[i] && is_first_of_site(ms, k),
        forall|k: int| 0 <= k < ms.len() ==> has_site(firsts_spec(ms), (#[trigger] ms[k]).site),
    decreases ms.len(),
{
    if ms.len() > 0 {
        let rest = ms.drop_last();
        let last = ms.last();
        let n = ms.len() - 1;
        lemma_first_of_each_site(rest);
        let fr = firsts_spec(rest);
        let f = firsts_spec(ms);
        assert forall|i: int| 0 <= i < f.len() implies exists|k: int|
            0 <= k < ms.len() && ms[k] == #[trigger] f[i] && is_first_of_site(ms, k) by {
            if i < fr.len() {
                let k = choose|k: int| 0 <= k < rest.len() && rest[k] == fr[i] && is_first_of_site(rest, k);
                assert(ms[k] == rest[k]);
                assert forall|j: int| 0 <= j < k implies (#[trigger] ms[j]).site != ms[k].site by {
                    assert(ms[j] == rest[j]);
                }
            } else {
                assert(f[i] == last);
                assert forall|j: int| 0 <= j < n implies (#[trigger] ms[j]).site != ms[n].site by {
                    assert(ms[j] == rest[j]);
                    if rest[j].site == last.site {
                        assert(has_site(fr, rest[j].site));
                    }
                }
                assert(ms[n] == f[i]);
            }
        }
        assert forall|k: int| 0 <= k < ms.len() implies has_site(f, (#[trigger] ms[k]).site) by {
            if k < n {
                assert(ms[k] == rest[k]);
                assert(has_site(fr, rest[k].site));
                let t = choose|t: int| 0 <= t < fr.len() && (#[trigger] fr[t]).site == rest[k].site;
                assert(f[t] == fr[t]);
            } else if !has_site(fr, last.site) {
                assert(f[fr.len() as int] == last);
            }
        }
        assert forall|i: int, j: int| 0 <= i < j < f.len() implies (#[trigger] f[i]).site != (#[trigger] f[j]).site by {
            if j < fr.len() {
                assert(f[i] == fr[i] && f[j] == fr[j]);
            } else {
                assert(f[i] == fr[i]);
                assert(f[j] == last);
            }
        }
    }
}

/// Every match of a rank bucket is a match of the list.
proof fn lemma_bucket_from(order: Seq<Sites>, ms: Seq<ImageMatch>, k: nat)
    ensures
        forall|x: ImageMatch| #[trigger] rank_bucket(order, ms, k).contains(x) ==> ms.contains(x),
    decreases ms.len(),
{
    if ms.len() > 0 {
        let rest = ms.drop_last();
        lemma_bucket_from(order, rest, k);
        let b = rank_bucket(order, ms, k);
        assert forall|x: ImageMatch| b.contains(x) implies ms.contains(x) by {
            let i = choose|i: int| 0 <= i < b.len() && b[i] == x;
            let br = rank_bucket(order, rest, k);
            if i < br.len() {
                assert(b[i] == br[i]);
                assert(br.contains(x));
                assert(rest.contains(x));
                let t = choose|t: int| 0 <= t < rest.len() && rest[t] == x;
                assert(ms[t] == x);
            } else {
                assert(ms[ms.len() - 1] == x);
            }
        }
    }
}

/// Every match of the sorted list is a match of the input.
pub proof fn lemma_sorted_from(order: Seq<Sites>, ms: Seq<ImageMatch>)
    ensures
        forall|x: ImageMatch| #[trigger] sorted_by_sites(order, ms).contains(x) ==> ms.contains(x),
{
    lemma_ranked_from(order, ms, order.len() + 1);
}

proof fn lemma_ranked_from(order: Seq<Sites>, ms: Seq<ImageMatch>, k: nat)
    ensures
        forall|x: ImageMatch| #[trigger] ranked_below(order, ms, k).contains(x) ==> ms.contains(x),
    decreases k,
{
    if k > 0 {
        let k1 = (k - 1) as nat;
        lemma_ranked_from(order, ms, k1);
        lemma_bucket_from(order, ms, k1);
        let a = ranked_below(order, ms, k1);
        let b = rank_bucket(order, ms, k1);
        assert forall|x: ImageMatch| ranked_below(order, ms, k).contains(x) implies ms.contains(x) by {
            let r = ranked_below(order, ms, k);
            assert(r == a + b);
            let i = choose|i: int| 0 <= i < r.len() && r[i] == x;
            if i < a.len() {
                assert(a[i] == x);
                assert(a.contains(x));
            } else {
                assert(b[i - a.len()] == x);
                assert(b.contains(x));
            }
        }
    }
}

} // verus!
