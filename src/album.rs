use vstd::prelude::*;
use vstd::string::StringExecFns;

use crate::matches::ImageMatch;

verus! {

/// How long, in seconds, an album remembers the sources it shows.
pub const ALBUM_MEMORY_SECONDS: u64 = 300;

/// The key of the set of source URLs already shown in an album.
pub open spec fn group_sources_key_spec(media_group_id: Seq<char>) -> Seq<char> {
    "group-sources:"@ + media_group_id
}

/// Names the key-value set that holds the source URLs of an album.
pub fn group_sources_key(media_group_id: &str) -> (r: String)
    ensures
        r@ == group_sources_key_spec(media_group_id@),
{
    String::from_str("group-sources:").concat(media_group_id)
}

/// The URLs in their input order, each only at its first occurrence.
pub open spec fn unique_spec(urls: Seq<Seq<char>>) -> Seq<Seq<char>>
    decreases urls.len(),
{
    if urls.len() == 0 {
        urls
    } else {
        let rest = unique_spec(urls.drop_last());
        if rest.contains(urls.last()) {
            rest
        } else {
            rest.push(urls.last())
        }
    }
}

/// The URLs of a list of matches.
pub open spec fn urls_of(ms: Seq<ImageMatch>) -> Seq<Seq<char>> {
    ms.map_values(|m: ImageMatch| m.url@)
}

/// The URL set of an album's record after `urls` were added to `stored`.
pub open spec fn after_add(stored: Set<Seq<char>>, urls: Seq<Seq<char>>) -> Set<Seq<char>> {
    stored + urls.to_set()
}

/// How many of the distinct `urls` a set add inserts into `stored`: those
/// it did not hold yet.
pub open spec fn added_count(stored: Set<Seq<char>>, urls: Seq<Seq<char>>) -> nat
    decreases urls.len(),
{
    if urls.len() == 0 {
        0
    } else {
        added_count(stored, urls.drop_last()) + if stored.contains(urls.last()) {
            0nat
        } else {
            1nat
        }
    }
}

/// What the album memory answers for the distinct `urls` when its record
/// held `stored`: some URL was shown before.
pub open spec fn already_had_spec(stored: Set<Seq<char>>, urls: Seq<Seq<char>>) -> bool {
    urls.len() > added_count(stored, urls)
}

/// What to do with an album's record for one image.
#[derive(Clone, Debug, PartialEq, Eq)]
pub enum AlbumStep {
    /// The message is not part of an album: nothing was shown before.
    NotAlbum,
    /// Add `urls` to the set under `key` and renew its lifetime.
    Add { key: String, urls: Vec<String> },
}

/// Lists each URL once, in the order of its first occurrence.
pub fn unique_urls(urls: &Vec<String>) -> (r: Vec<String>)
    ensures
        r@.map_values(|s: String| s@) == unique_spec(urls@.map_values(|s: String| s@)),
{
    let ghost uv = urls@.map_values(|s: String| s@);
    let mut r: Vec<String> = Vec::new();
    let mut i: usize = 0;
    while i < urls.len()
        invariant
            i <= urls@.len(),
            uv == urls@.map_values(|s: String| s@),
            r@.map_values(|s: String| s@) == unique_spec(uv.subrange(0, i as int)),
        decreases urls@.len() - i,
    {
        let ghost rv = r@.map_values(|s: String| s@);
        proof {
            assert(uv.subrange(0, i + 1).drop_last() =~= uv.subrange(0, i as int));
        }
        let mut seen = false;
        let mut j: usize = 0;
        while j < r.len()
            invariant
                j <= r@.len(),
                i < urls@.len(),
                uv == urls@.map_values(|s: String| s@),
                rv == r@.map_values(|s: String| s@),
                seen <==> exists|t: int| 0 <= t < j && rv[t] == uv[i as int],
            decreases r@.len() - j,
        {
            if r[j] == urls[i] {
                seen = true;
            }
            assert(rv[j as int] == r@[j as int]@);
            assert(uv[i as int] == urls@[i as int]@);
            assert(seen ==> exists|t: int| 0 <= t < j + 1 && rv[t] == uv[i as int]);
            j = j + 1;
        }
        proof {
            if rv.contains(uv[i as int]) {
                let t = choose|t: int| 0 <= t < rv.len() && rv[t] == uv[i as int];
                assert(rv[t] == urls@[i as int]@);
            }
        }
        if !seen {
            r.push(urls[i].clone());
            assert(r@.map_values(|s: String| s@) =~= rv.push(uv[i as int]));
        }
        i = i + 1;
    }
    assert(uv.subrange(0, urls@.len() as int) =~= uv);
    r
}

/// Decides what the album memory does for an image with the given album
/// and source matches: nothing when the image is not in an album, else add
/// the distinct source URLs to the album's set.
pub fn album_step(media_group_id: &Option<String>, matches: &Vec<ImageMatch>) -> (r: AlbumStep)
    ensures
        media_group_id is None <==> r is NotAlbum,
        r matches AlbumStep::Add { key, urls } ==> {
            &&& key@ == group_sources_key_spec(media_group_id->0@)
            &&& urls@.map_values(|s: String| s@) == unique_spec(urls_of(matches@))
        },
{
    match media_group_id {
        None => AlbumStep::NotAlbum,
        Some(id) => {
            let mut all: Vec<String> = Vec::new();
            let mut i: usize = 0;
            while i < matches.len()
                invariant
                    i <= matches@.len(),
                    all@.map_values(|s: String| s@) =~= urls_of(matches@.subrange(0, i as int)),
                decreases matches@.len() - i,
            {
                let ghost before = all@.map_values(|s: String| s@);
                proof {
                    assert(matches@.subrange(0, i + 1) =~= matches@.subrange(0, i as int).push(matches@[i as int]));
                }
                all.push(matches[i].url.clone());
                assert(all@.map_values(|s: String| s@) =~= before.push(matches@[i as int].url@));
                i = i + 1;
            }
            assert(matches@.subrange(0, matches@.len() as int) =~= matches@);
            AlbumStep::Add { key: group_sources_key(id.as_str()), urls: unique_urls(&all) }
        },
    }
}

/// What the album memory answers for a step whose set add inserted `added`
/// URLs.
pub open spec fn album_answer(step: AlbumStep, added: nat) -> bool {
    match step {
        AlbumStep::NotAlbum => false,
        AlbumStep::Add { urls, .. } => urls@.len() > added,
    }
}

/// The album memory's answer for one image, given how many of the step's
/// URLs the set add inserted: an image outside an album was never
/// annotated; an image of an album was when fewer URLs were inserted than
/// offered, as some were there already.
pub fn already_had_source(step: &AlbumStep, added: usize) -> (r: bool)
    ensures
        r == album_answer(*step, added as nat),
{
    match step {
        AlbumStep::NotAlbum => false,
        AlbumStep::Add { urls, .. } => urls.len() > added,
    }
}

proof fn lemma_added_count_bound(stored: Set<Seq<char>>, urls: Seq<Seq<char>>)
    ensures
        added_count(stored, urls) <= urls.len(),
    decreases urls.len(),
{
    if urls.len() > 0 {
        lemma_added_count_bound(stored, urls.drop_last());
    }
}

proof fn lemma_added_none(stored: Set<Seq<char>>, urls: Seq<Seq<char>>)
    requires
        forall|i: int| 0 <= i < urls.len() ==> stored.contains(#[trigger] urls[i]),
    ensures
        added_count(stored, urls) == 0,
    decreases urls.len(),
{
    if urls.len() > 0 {
        assert(stored.contains(urls[urls.len() - 1]));
        lemma_added_none(stored, urls.drop_last());
    }
}

proof fn lemma_added_all(stored: Set<Seq<char>>, urls: Seq<Seq<char>>)
    requires
        forall|i: int| 0 <= i < urls.len() ==> !stored.contains(#[trigger] urls[i]),
    ensures
        added_count(stored, urls) == urls.len(),
    decreases urls.len(),
{
    if urls.len() > 0 {
        assert(!stored.contains(urls[urls.len() - 1]));
        lemma_added_all(stored, urls.drop_last());
    }
}

proof fn lemma_added_short_on_overlap(stored: Set<Seq<char>>, urls: Seq<Seq<char>>, k: int)
    requires
        0 <= k < urls.len(),
        stored.contains(urls[k]),
    ensures
        added_count(stored, urls) < urls.len(),
    decreases urls.len(),
{
    lemma_added_count_bound(stored, urls.drop_last());
    if k < urls.len() - 1 {
        lemma_added_short_on_overlap(stored, urls.drop_last(), k);
    }
}

proof fn lemma_unique_len(urls: Seq<Seq<char>>)
    ensures
        (unique_spec(urls).len() == 0) <==> (urls.len() == 0),
        forall|x: Seq<char>| unique_spec(urls).contains(x) <==> urls.contains(x),
    decreases urls.len(),
{
    if urls.len() > 0 {
        let rest = urls.drop_last();
        let last = urls.last();
        lemma_unique_len(rest);
        let ru = unique_spec(rest);
        let u = unique_spec(urls);
        assert forall|x: Seq<char>| u.contains(x) implies urls.contains(x) by {
            let i = choose|i: int| 0 <= i < u.len() && u[i] == x;
            if x == last {
                assert(urls[urls.len() - 1] == x);
            } else {
                assert(i < ru.len());
                assert(ru[i] == x);
                assert(ru.contains(x));
                assert(rest.contains(x));
                let k = choose|k: int| 0 <= k < rest.len() && rest[k] == x;
                assert(urls[k] == x);
            }
        }
        assert forall|x: Seq<char>| urls.contains(x) implies u.contains(x) by {
            let k = choose|k: int| 0 <= k < urls.len() && urls[k] == x;
            if k == urls.len() - 1 {
                if !ru.contains(last) {
                    assert(u[u.len() - 1] == last);
                }
            } else {
                assert(rest[k] == x);
                assert(rest.contains(x));
                assert(ru.contains(x));
                let i = choose|i: int| 0 <= i < ru.len() && ru[i] == x;
                assert(u[i] == x);
            }
        }
        if ru.len() == 0 {
            assert(!ru.contains(last));
            assert(u.len() == 1);
        }
    }
}

/// Album memory is idempotent: on an album whose record is empty, offering
/// the same URLs twice answers "not seen" the first time, and the second
/// time "seen" exactly when some URL was offered. The URLs are listed each
/// once before they are offered.
pub proof fn lemma_album_memory_idempotent(urls: Seq<Seq<char>>)
    ensures
        !already_had_spec(Set::empty(), unique_spec(urls)),
        already_had_spec(after_add(Set::empty(), unique_spec(urls)), unique_spec(urls)) == (urls.len() > 0),
{
    let u = unique_spec(urls);
    lemma_unique_len(urls);
    lemma_added_all(Set::empty(), u);
    let s1 = after_add(Set::empty(), u);
    assert forall|i: int| 0 <= i < u.len() implies s1.contains(#[trigger] u[i]) by {
        assert(u.contains(u[i]));
        assert(u.to_set().contains(u[i]));
    }
    lemma_added_none(s1, u);
}

/// An image outside an album is never taken as annotated already: its
/// step adds nothing, and the answer is "not seen" whatever was added.
pub proof fn lemma_absent_album_bypass(step: AlbumStep, added: nat)
    requires
        step is NotAlbum,
    ensures
        !album_answer(step, added),
{
}

/// Two images of one album whose source URLs overlap are not both
/// annotated: once the first has added its URLs to the album's record, the
/// second finds one of its URLs there, whatever the record held before.
pub proof fn lemma_album_suppression(stored: Set<Seq<char>>, first: Seq<Seq<char>>, second: Seq<Seq<char>>, shared: Seq<char>)
    requires
        first.contains(shared),
        second.contains(shared),
    ensures
        already_had_spec(after_add(stored, unique_spec(first)), unique_spec(second)),
{
    lemma_unique_len(first);
    lemma_unique_len(second);
    let s1 = after_add(stored, unique_spec(first));
    let u2 = unique_spec(second);
    assert(unique_spec(first).contains(shared));
    assert(unique_spec(first).to_set().contains(shared));
    assert(u2.contains(shared));
    let k = choose|k: int| 0 <= k < u2.len() && u2[k] == shared;
    lemma_added_short_on_overlap(s1, u2, k);
}

} // verus!
