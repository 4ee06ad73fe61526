use vstd::prelude::*;

use crate::matches::ImageMatch;
use crate::sites::Sites;
use crate::telegram::{Message, MessageEntity, MessageEntityType, PhotoSize};

verus! {

/// The number of Twitter matches from which a list counts as noise.
pub const NOISY_SOURCE_COUNT: usize = 4;

/// The largest Hamming distance at which two perceptual hashes show the same
/// image.
pub const MAX_HASH_DISTANCE: u64 = 3;

/// The resolution of a photo size.
pub open spec fn area(p: PhotoSize) -> int {
    p.width as int * p.height as int
}

fn size_area(p: &PhotoSize) -> (r: i64)
    ensures
        r == area(*p),
{
    let w = p.width as i64;
    let h = p.height as i64;
    proof {
        let wi = w as int;
        let hi = h as int;
        assert(-0x8000_0000 <= wi <= 0x7fff_ffff);
        assert(-0x8000_0000 <= hi <= 0x7fff_ffff);
        assert(-0x4000_0000_0000_0000 <= wi * hi <= 0x4000_0000_0000_0000) by (nonlinear_arith)
            requires
                -0x8000_0000 <= wi <= 0x7fff_ffff,
                -0x8000_0000 <= hi <= 0x7fff_ffff,
        ;
    }
    w * h
}

/// Position `i` holds the largest photo, and no later one is as large.
pub open spec fn is_best_photo(sizes: Seq<PhotoSize>, i: int) -> bool {
    &&& 0 <= i < sizes.len()
    &&& forall|j: int| 0 <= j < sizes.len() ==> area(#[trigger] sizes[j]) <= area(sizes[i])
    &&& forall|j: int| i < j < sizes.len() ==> area(#[trigger] sizes[j]) < area(sizes[i])
}

/// Picks the photo size with the largest resolution; among equally large
/// ones, the last.
pub fn find_best_photo(sizes: &Vec<PhotoSize>) -> (r: Option<usize>)
    ensures
        r is None <==> sizes@.len() == 0,
        r matches Some(i) ==> is_best_photo(sizes@, i as int),
{
    if sizes.len() == 0 {
        return None;
    }
    let mut best: usize = 0;
    let mut best_area: i64 = size_area(&sizes[0]);
    let mut i: usize = 1;
    while i < sizes.len()
        invariant
            1 <= i <= sizes@.len(),
            best < i,
            best_area == area(sizes@[best as int]),
            forall|j: int| 0 <= j < i ==> area(#[trigger] sizes@[j]) <= area(sizes@[best as int]),
            forall|j: int| best < j < i ==> area(#[trigger] sizes@[j]) < area(sizes@[best as int]),
        decreases sizes@.len() - i,
    {
        let a: i64 = size_area(&sizes[i]);
        if a >= best_area {
            best = i;
            best_area = a;
        }
        i = i + 1;
    }
    Some(best)
}

/// The URLs that linkify finds in a text, in order.
pub uninterp spec fn urls_in(text: Seq<char>) -> Seq<Seq<char>>;

/// Relies on linkify's `LinkFinder::links`, set to find URLs only: the
/// URLs it finds in the text, in the order they stand there.
#[verifier::external_body]
fn find_urls(text: &str) -> (r: Vec<String>)
    ensures
        r@.map_values(|s: String| s@) == urls_in(text@),
{
    let mut finder = linkify::LinkFinder::new();
    finder.kinds(&[linkify::LinkKind::Url]);
    finder.links(text).map(|link| link.as_str().to_string()).collect()
}

/// The URLs of the text-link entities, in order.
pub open spec fn entity_links(es: Seq<MessageEntity>) -> Seq<Seq<char>>
    decreases es.len(),
{
    if es.len() == 0 {
        Seq::empty()
    } else {
        let rest = entity_links(es.drop_last());
        let e = es.last();
        if e.entity_type == MessageEntityType::TextLink && e.url is Some {
            rest.push((e.url->0)@)
        } else {
            rest
        }
    }
}

/// The URLs found in an optional text.
pub open spec fn urls_in_opt(text: Option<String>) -> Seq<Seq<char>> {
    match text {
        Some(t) => urls_in(t@),
        None => Seq::empty(),
    }
}

/// Every link of a message: the URLs in its text, the targets of its text
/// links, then the URLs in its caption.
pub open spec fn links_spec(m: Message) -> Seq<Seq<char>> {
    let es = match m.entities {
        Some(es) => entity_links(es@),
        None => Seq::empty(),
    };
    urls_in_opt(m.text) + es + urls_in_opt(m.caption)
}

fn append_all(r: &mut Vec<String>, more: Vec<String>)
    ensures
        final(r)@.map_values(|s: String| s@) == old(r)@.map_values(|s: String| s@) + more@.map_values(
            |s: String| s@,
        ),
{
    let ghost start = r@.map_values(|s: String| s@);
    let ghost mv = more@.map_values(|s: String| s@);
    let mut i: usize = 0;
    while i < more.len()
        invariant
            i <= more@.len(),
            mv == more@.map_values(|s: String| s@),
            r@.map_values(|s: String| s@) == start + mv.subrange(0, i as int),
        decreases more@.len() - i,
    {
        let ghost before = r@.map_values(|s: String| s@);
        r.push(more[i].clone());
        assert(r@.map_values(|s: String| s@) =~= before.push(mv[i as int]));
        assert(mv.subrange(0, i + 1) =~= mv.subrange(0, i as int).push(mv[i as int]));
        i = i + 1;
    }
    assert(mv.subrange(0, more@.len() as int) =~= mv);
}

/// Extracts every URL present in a message's text, text links and caption.
pub fn extract_links(message: &Message) -> (r: Vec<String>)
    ensures
        r@.map_values(|s: String| s@) == links_spec(*message),
{
    let mut r: Vec<String> = Vec::new();
    match &message.text {
        Some(t) => append_all(&mut r, find_urls(t.as_str())),
        None => {},
    }
    assert(r@.map_values(|s: String| s@) =~= urls_in_opt(message.text));
    let ghost head = r@.map_values(|s: String| s@);
    match &message.entities {
        Some(es) => {
            let mut i: usize = 0;
            while i < es.len()
                invariant
                    i <= es@.len(),
                    r@.map_values(|s: String| s@) == head + entity_links(es@.subrange(0, i as int)),
                decreases es@.len() - i,
            {
                let ghost before = r@.map_values(|s: String| s@);
                proof {
                    assert(es@.subrange(0, i + 1).drop_last() =~= es@.subrange(0, i as int));
                }
                let e = &es[i];
                if e.entity_type == MessageEntityType::TextLink {
                    match &e.url {
                        Some(u) => {
                            r.push(u.clone());
                            assert(r@.map_values(|s: String| s@) =~= before.push(u@));
                        },
                        None => {},
                    }
                }
                i = i + 1;
            }
            assert(es@.subrange(0, es@.len() as int) =~= es@);
        },
        None => {
            assert(r@.map_values(|s: String| s@) =~= head + Seq::empty());
        },
    }
    match &message.caption {
        Some(c) => append_all(&mut r, find_urls(c.as_str())),
        None => {},
    }
    assert(r@.map_values(|s: String| s@) =~= links_spec(*message));
    r
}

/// Some source key also stands among the keys of the message's links.
pub open spec fn any_seen_spec(links: Seq<Seq<char>>, sources: Seq<Seq<char>>) -> bool {
    exists|i: int, j: int|
        0 <= i < links.len() && 0 <= j < sources.len() && #[trigger] links[i] == #[trigger] sources[j]
}

/// Tells whether any source already stands in the message. Both lists hold
/// post keys: what the site adapters make of each URL, so that two URLs of
/// one post have one key (by default a URL is its own key).
pub fn link_was_seen(links: &Vec<String>, sources: &Vec<String>) -> (r: bool)
    ensures
        r == any_seen_spec(links@.map_values(|s: String| s@), sources@.map_values(|s: String| s@)),
{
    let ghost lv = links@.map_values(|s: String| s@);
    let ghost sv = sources@.map_values(|s: String| s@);
    let mut i: usize = 0;
    while i < links.len()
        invariant
            i <= links@.len(),
            lv == links@.map_values(|s: String| s@),
            sv == sources@.map_values(|s: String| s@),
            forall|a: int, b: int| 0 <= a < i && 0 <= b < sv.len() ==> #[trigger] lv[a] != #[trigger] sv[b],
        decreases links@.len() - i,
    {
        let mut j: usize = 0;
        while j < sources.len()
            invariant
                i < links@.len(),
                j <= sources@.len(),
                lv == links@.map_values(|s: String| s@),
                sv == sources@.map_values(|s: String| s@),
                forall|a: int, b: int| 0 <= a < i && 0 <= b < sv.len() ==> #[trigger] lv[a] != #[trigger] sv[b],
                forall|b: int| 0 <= b < j ==> lv[i as int] != #[trigger] sv[b],
            decreases sources@.len() - j,
        {
            if links[i] == sources[j] {
                assert(lv[i as int] == sv[j as int]);
                return true;
            }
            j = j + 1;
        }
        i = i + 1;
    }
    false
}

/// The number of set bits of a byte.
pub open spec fn ones(b: u8) -> nat
    decreases b,
{
    if b == 0 {
        0
    } else {
        (b % 2) as nat + ones(b / 2)
    }
}

/// The number of bit positions at which two byte strings differ.
pub open spec fn bit_distance(x: Seq<u8>, y: Seq<u8>) -> nat
    decreases x.len(),
{
    if x.len() == 0 || y.len() == 0 {
        0
    } else {
        bit_distance(x.drop_last(), y.drop_last()) + ones(x.last() ^ y.last())
    }
}

/// Relies on hamming's `distance`: the number of bits in which two slices
/// of equal length differ. It panics on slices of different lengths.
pub assume_specification[ hamming::distance ](x: &[u8], y: &[u8]) -> (r: u64)
    requires
        x@.len() == y@.len(),
    ensures
        r == bit_distance(x@, y@),
;

/// The bits of a 64-bit hash as an unsigned number.
pub open spec fn hash_bits(h: i64) -> u64 {
    if h >= 0 {
        h as u64
    } else {
        (h + 0x1_0000_0000_0000_0000int) as u64
    }
}

/// The eight bytes of a 64-bit hash, most significant first.
pub open spec fn hash_bytes_spec(h: i64) -> Seq<u8> {
    Seq::new(8, |k: int| ((hash_bits(h) >> ((56 - 8 * k) as u64)) & 0xff) as u8)
}

/// Writes a 64-bit hash as eight bytes, most significant first.
pub fn hash_bytes(h: i64) -> (r: Vec<u8>)
    ensures
        r@ == hash_bytes_spec(h),
{
    let v: u64 = if h >= 0 {
        h as u64
    } else {
        (h as i128 + 0x1_0000_0000_0000_0000i128) as u64
    };
    let mut r: Vec<u8> = Vec::new();
    let mut k: u64 = 0;
    while k < 8
        invariant
            k <= 8,
            v == hash_bits(h),
            r@.len() == k,
            forall|t: int| 0 <= t < k ==> r@[t] == ((v >> ((56 - 8 * t) as u64)) & 0xff) as u8,
        decreases 8 - k,
    {
        let shift: u64 = 56 - 8 * k;
        let x: u64 = (v >> shift) & 0xff;
        assert(((v >> shift) & 0xff) <= 0xff) by (bit_vector);
        r.push(x as u8);
        k = k + 1;
    }
    assert(r@ =~= hash_bytes_spec(h));
    r
}

/// The candidate hash shows the same image as the searched hash: it has
/// eight bytes and differs from the searched hash in at most
/// `MAX_HASH_DISTANCE` bits.
pub open spec fn is_similar_spec(to: i64, candidate: Seq<u8>) -> bool {
    candidate.len() == 8 && bit_distance(hash_bytes_spec(to), candidate) <= MAX_HASH_DISTANCE
}

/// Compares the hash of an image that a message already links to with the
/// searched hash. A hash that is not eight bytes long confirms nothing.
pub fn hash_is_similar(to: i64, candidate: &Vec<u8>) -> (r: bool)
    ensures
        r == is_similar_spec(to, candidate@),
{
    if candidate.len() != 8 {
        return false;
    }
    let searched = hash_bytes(to);
    let d = hamming::distance(searched.as_slice(), candidate.as_slice());
    d <= MAX_HASH_DISTANCE
}

/// The number of matches on `site`.
pub open spec fn site_count(ms: Seq<ImageMatch>, site: Sites) -> nat
    decreases ms.len(),
{
    if ms.len() == 0 {
        0
    } else {
        site_count(ms.drop_last(), site) + if ms.last().site == site {
            1nat
        } else {
            0nat
        }
    }
}

proof fn lemma_site_count_bound(ms: Seq<ImageMatch>, site: Sites)
    ensures
        site_count(ms, site) <= ms.len(),
    decreases ms.len(),
{
    if ms.len() > 0 {
        lemma_site_count_bound(ms.drop_last(), site);
    }
}

/// The list is mostly copies from Twitter: at least `NOISY_SOURCE_COUNT`
/// Twitter matches and at most one other.
pub open spec fn is_noisy_spec(ms: Seq<ImageMatch>) -> bool {
    &&& site_count(ms, Sites::Twitter) >= NOISY_SOURCE_COUNT
    &&& ms.len() - site_count(ms, Sites::Twitter) <= 1
}

/// Tells whether a match list is too noisy to post in a group: an image
/// re-posted widely on Twitter would otherwise bring a long list of links.
pub fn is_noisy(matches: &Vec<ImageMatch>) -> (r: bool)
    ensures
        r == is_noisy_spec(matches@),
{
    let mut twitter: usize = 0;
    let mut i: usize = 0;
    while i < matches.len()
        invariant
            i <= matches@.len(),
            twitter == site_count(matches@.subrange(0, i as int), Sites::Twitter),
            twitter <= i,
        decreases matches@.len() - i,
    {
        proof {
            assert(matches@.subrange(0, i + 1).drop_last() =~= matches@.subrange(0, i as int));
        }
        if matches[i].site == Sites::Twitter {
            twitter = twitter + 1;
        }
        i = i + 1;
    }
    assert(matches@.subrange(0, matches@.len() as int) =~= matches@);
    let others = matches.len() - twitter;
    others <= 1 && twitter >= NOISY_SOURCE_COUNT
}

} // verus!
