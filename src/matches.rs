use vstd::prelude::*;

use crate::sites::Sites;

verus! {

/// The largest perceptual-hash distance at which a match counts as a source.
pub const MAX_SOURCE_DISTANCE: u64 = 3;

/// The content rating that a site gives a post.
#[derive(Clone, Copy, Debug, PartialEq, Eq, Structural)]
pub enum Rating {
    General,
    Mature,
    Adult,
}

/// The name of the localized message that describes a rating.
pub open spec fn rating_message_name(rating: Option<Rating>) -> Seq<char> {
    match rating {
        Some(Rating::General) => "rating-general"@,
        Some(Rating::Mature) => "rating-mature"@,
        Some(Rating::Adult) => "rating-adult"@,
        None => "rating-unknown"@,
    }
}

/// Names the localized message that describes a rating.
pub fn rating_bundle_name(rating: &Option<Rating>) -> (r: &'static str)
    ensures
        r@ == rating_message_name(*rating),
{
    match rating {
        Some(Rating::General) => "rating-general",
        Some(Rating::Mature) => "rating-mature",
        Some(Rating::Adult) => "rating-adult",
        None => "rating-unknown",
    }
}

/// A candidate source that the hash search reported for an image.
///
/// The URL is already canonical. A match without a distance is far from
/// the image and never passes the distance filter.
#[derive(Clone, Debug)]
pub struct ImageMatch {
    pub site: Sites,
    pub site_id: i64,
    pub url: String,
    pub distance: Option<u64>,
    pub rating: Option<Rating>,
}

impl ImageMatch {
    /// A field-by-field copy.
    pub fn duplicate(&self) -> (r: ImageMatch)
        ensures
            r == *self,
    {
        ImageMatch {
            site: self.site,
            site_id: self.site_id,
            url: self.url.clone(),
            distance: self.distance,
            rating: self.rating,
        }
    }
}

/// The match is close enough to the image to be shown as its source.
pub open spec fn is_close(m: ImageMatch) -> bool {
    m.distance matches Some(d) && d <= MAX_SOURCE_DISTANCE
}

/// The close matches, in their input order.
pub open spec fn close_matches_spec(ms: Seq<ImageMatch>) -> Seq<ImageMatch>
    decreases ms.len(),
{
    if ms.len() == 0 {
        ms
    } else {
        let rest = close_matches_spec(ms.drop_last());
        if is_close(ms.last()) {
            rest.push(ms.last())
        } else {
            rest
        }
    }
}

/// Keeps the matches whose distance is at most `MAX_SOURCE_DISTANCE`.
pub fn close_matches(matches: &Vec<ImageMatch>) -> (r: Vec<ImageMatch>)
    ensures
        r@ == close_matches_spec(matches@),
{
    let mut r: Vec<ImageMatch> = Vec::new();
    let mut i: usize = 0;
    while i < matches.len()
        invariant
            i <= matches@.len(),
            r@ == close_matches_spec(matches@.subrange(0, i as int)),
        decreases matches@.len() - i,
    {
        proof {
            assert(matches@.subrange(0, i + 1).drop_last() =~= matches@.subrange(0, i as int));
        }
        let m = &matches[i];
        let close = match m.distance {
            Some(d) => d <= MAX_SOURCE_DISTANCE,
            None => false,
        };
        if close {
            r.push(m.duplicate());
        }
        i = i + 1;
    }
    assert(matches@.subrange(0, matches@.len() as int) =~= matches@);
    r
}

/// Every match that the distance filter keeps is close and comes from the
/// list.
pub proof fn lemma_close_from(ms: Seq<ImageMatch>)
    ensures
        forall|x: ImageMatch| #[trigger] close_matches_spec(ms).contains(x) ==> is_close(x) && ms.contains(x),
    decreases ms.len(),
{
    if ms.len() > 0 {
        let rest = ms.drop_last();
        lemma_close_from(rest);
        let c = close_matches_spec(ms);
        let cr = close_matches_spec(rest);
        assert forall|x: ImageMatch| c.contains(x) implies is_close(x) && ms.contains(x) by {
            let i = choose|i: int| 0 <= i < c.len() && c[i] == x;
            if i < cr.len() {
                assert(c[i] == cr[i]);
                assert(cr.contains(x));
                assert(rest.contains(x));
                let t = choose|t: int| 0 <= t < rest.len() && rest[t] == x;
                assert(ms[t] == rest[t]);
            } else {
                assert(ms[ms.len() - 1] == x);
            }
        }
    }
}

} // verus!
