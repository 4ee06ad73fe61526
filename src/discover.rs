use vstd::prelude::*;

use crate::album::{album_step, already_had_source, group_sources_key_spec, unique_spec, urls_of, AlbumStep};
use crate::jobs::{edit_payload, group_reply_plan, is_edit_payload, is_reply_plan, GroupText, MessageEdit};
use crate::matches::{close_matches, close_matches_spec, ImageMatch};
use crate::ordering::{sort_by_sites, sorted_by_sites};
use crate::resolver::{any_seen_spec, extract_links, find_best_photo, is_best_photo, link_was_seen, links_spec};
use crate::sites::Sites;
use crate::telegram::{Message, PhotoSize};
use crate::text::copy_strings;

verus! {

/// The kind of chat a photo was posted in, with what that path needs.
#[derive(Debug)]
pub enum DiscoverPath {
    /// A channel: the sources go on the photo itself.
    Channel,
    /// A group: the sources go in a reply, ordered by the sender's site
    /// priority, and only when the group has automatic sources enabled.
    Group { enabled: bool, order: Vec<Sites> },
}

/// Where the discovery of a photo's sources stands.
#[derive(Debug)]
pub enum DiscoverStage {
    /// Waiting for the matches of the photo's hash.
    Searching,
    /// Waiting to learn whether a linked image is the same image.
    ConfirmingLinks,
    /// Waiting for the album's record to take the sources.
    AddingToAlbum { step: AlbumStep },
    /// Nothing is left to do.
    Done,
}

/// The discovery of the sources of one photo.
#[derive(Debug)]
pub struct Discovery {
    pub path: DiscoverPath,
    pub chat_id: i64,
    pub message_id: i32,
    pub media_group_id: Option<String>,
    /// Every link of the message.
    pub links: Vec<String>,
    /// The matches that remain candidates, once the search has answered.
    pub matches: Vec<ImageMatch>,
    pub stage: DiscoverStage,
}

/// What the outside world reports back.
#[derive(Debug)]
pub enum DiscoverEvent {
    /// The hash search answered with these matches.
    Searched { matches: Vec<ImageMatch> },
    /// Whether some image behind the message's links is the searched image.
    LinksConfirmed { same_image: bool },
    /// How many of the URLs the album's record did not hold yet.
    AlbumAdded { added: usize },
}

/// What the outside world is asked to do next.
#[derive(Debug)]
pub enum DiscoverAction {
    /// Nothing; the job succeeds without annotation.
    Finish,
    /// Hash the photo (or look its hash up) and search for matches.
    Search { photo: PhotoSize },
    /// Fetch the images behind these links and compare them with the
    /// searched hash.
    ConfirmLinks { links: Vec<String> },
    /// Add the URLs to the album's set under `key`, renew its lifetime, and
    /// report how many were new.
    AddToAlbum { key: String, urls: Vec<String> },
    /// Enqueue a channel edit with this payload.
    EnqueueEdit { edit: MessageEdit },
    /// Render this reply in the sender's language and enqueue it.
    Reply { text: GroupText },
}

/// The path's order, when it has one, fits the sort.
pub open spec fn path_ok(path: DiscoverPath) -> bool {
    path matches DiscoverPath::Group { order, .. } ==> order@.len() < usize::MAX
}

/// The matches that stay candidates after the search: the close ones, in
/// the sender's site priority on the group path.
pub open spec fn kept_matches(path: DiscoverPath, ms: Seq<ImageMatch>) -> Seq<ImageMatch> {
    match path {
        DiscoverPath::Channel => close_matches_spec(ms),
        DiscoverPath::Group { order, .. } => close_matches_spec(sorted_by_sites(order@, ms)),
    }
}

pub open spec fn string_views(v: Seq<String>) -> Seq<Seq<char>> {
    v.map_values(|s: String| s@)
}

/// Two discoveries are of the same photo with the same candidates.
pub open spec fn same_photo(a: Discovery, b: Discovery) -> bool {
    &&& a.path == b.path
    &&& a.chat_id == b.chat_id
    &&& a.message_id == b.message_id
    &&& a.media_group_id == b.media_group_id
    &&& a.links == b.links
    &&& a.matches == b.matches
}

/// The discovery is over and nothing is done.
pub open spec fn finished(r: (Discovery, DiscoverAction)) -> bool {
    r.0.stage is Done && r.1 is Finish
}

/// The last action once every filter has passed: the channel edit, or the
/// group reply that the plan gives (none for noise).
pub open spec fn final_ok(job: Discovery, a: DiscoverAction) -> bool {
    match job.path {
        DiscoverPath::Channel => a matches DiscoverAction::EnqueueEdit { edit } && is_edit_payload(
            edit,
            job.chat_id,
            job.message_id,
            job.media_group_id,
            job.matches@,
        ),
        DiscoverPath::Group { .. } => match a {
            DiscoverAction::Finish => is_reply_plan(job.matches@, false, None),
            DiscoverAction::Reply { text } => is_reply_plan(job.matches@, false, Some(text)),
            _ => false,
        },
    }
}

/// After the link checks: an album photo first offers its sources to the
/// album's record; any other photo goes straight to its last action.
pub open spec fn album_or_final_ok(job: Discovery, r: (Discovery, DiscoverAction)) -> bool {
    &&& same_photo(job, r.0)
    &&& match job.media_group_id {
        None => r.0.stage is Done && final_ok(job, r.1),
        Some(g) => r.1 matches DiscoverAction::AddToAlbum { key, urls } && {
            &&& key@ == group_sources_key_spec(g@)
            &&& string_views(urls@) == unique_spec(urls_of(job.matches@))
            &&& r.0.stage matches DiscoverStage::AddingToAlbum {
                step: AlbumStep::Add { key: k, urls: u },
            } && k == key && u@ == urls@
        },
    }
}

fn final_step(job: Discovery) -> (r: (Discovery, DiscoverAction))
    ensures
        same_photo(job, r.0),
        r.0.stage is Done,
        final_ok(job, r.1),
{
    let action = match &job.path {
        DiscoverPath::Channel => DiscoverAction::EnqueueEdit {
            edit: edit_payload(job.chat_id, job.message_id, &job.media_group_id, &job.matches),
        },
        DiscoverPath::Group { .. } => match group_reply_plan(&job.matches, false) {
            Some(text) => DiscoverAction::Reply { text },
            None => DiscoverAction::Finish,
        },
    };
    (Discovery { stage: DiscoverStage::Done, ..job }, action)
}

fn album_or_final(job: Discovery) -> (r: (Discovery, DiscoverAction))
    ensures
        album_or_final_ok(job, r),
{
    let step = album_step(&job.media_group_id, &job.matches);
    match step {
        AlbumStep::NotAlbum => final_step(job),
        AlbumStep::Add { key, urls } => {
            let action = DiscoverAction::AddToAlbum { key: key.clone(), urls: copy_strings(&urls) };
            (Discovery { stage: DiscoverStage::AddingToAlbum { step: AlbumStep::Add { key, urls } }, ..job }, action)
        },
    }
}

/// Begins the discovery of a message's sources: a message without a photo,
/// or on a group path that is not enabled, needs none; otherwise the
/// largest photo is searched for.
pub fn start_discovery(path: DiscoverPath, message: &Message) -> (r: (Discovery, DiscoverAction))
    requires
        path_ok(path),
    ensures
        path_ok(r.0.path),
        r.0.path == path,
        r.0.chat_id == message.chat.id,
        r.0.message_id == message.message_id,
        r.0.media_group_id == message.media_group_id,
        string_views(r.0.links@) == links_spec(*message),
        r.0.matches@.len() == 0,
        (message.photo is None || message.photo->0@.len() == 0 || path matches DiscoverPath::Group {
            enabled: false,
            ..
        }) <==> finished(r),
        r.1 matches DiscoverAction::Search { photo } ==> r.0.stage is Searching && exists|i: int|
            #[trigger] is_best_photo(message.photo->0@, i) && photo == message.photo->0@[i],
        r.1 is Finish || r.1 is Search,
{
    let skip = match &path {
        DiscoverPath::Group { enabled, .. } => !*enabled,
        DiscoverPath::Channel => false,
    };
    let links = extract_links(message);
    let job = Discovery {
        path,
        chat_id: message.chat.id,
        message_id: message.message_id,
        media_group_id: crate::text::copy_opt(&message.media_group_id),
        links,
        matches: Vec::new(),
        stage: DiscoverStage::Searching,
    };
    if skip {
        return (Discovery { stage: DiscoverStage::Done, ..job }, DiscoverAction::Finish);
    }
    match &message.photo {
        None => (Discovery { stage: DiscoverStage::Done, ..job }, DiscoverAction::Finish),
        Some(sizes) => match find_best_photo(sizes) {
            None => (Discovery { stage: DiscoverStage::Done, ..job }, DiscoverAction::Finish),
            Some(i) => {
                let photo = sizes[i].duplicate();
                (job, DiscoverAction::Search { photo })
            },
        },
    }
}

/// Takes the next report and decides what follows.
///
/// After the search: without a kept match, or when the message already
/// links one, nothing is done; when the message has links, their images
/// are compared first. After that comparison: the same image ends the
/// discovery. An album photo then offers its sources to the album's
/// record, and one that was already shown ends the discovery. The last
/// action is the channel edit or the group reply. A report that does not
/// answer the current stage ends the discovery.
pub fn step_discovery(job: Discovery, event: DiscoverEvent) -> (r: (Discovery, DiscoverAction))
    requires
        path_ok(job.path),
    ensures
        path_ok(r.0.path),
        match (job.stage, event) {
            (DiscoverStage::Searching, DiscoverEvent::Searched { matches }) => {
                let kept = kept_matches(job.path, matches@);
                let searched = Discovery { matches: r.0.matches, ..job };
                &&& r.0.matches@ == kept
                &&& if kept.len() == 0 || any_seen_spec(string_views(job.links@), urls_of(kept)) {
                    finished(r)
                } else if job.links@.len() > 0 {
                    &&& same_photo(searched, r.0)
                    &&& r.0.stage is ConfirmingLinks
                    &&& r.1 matches DiscoverAction::ConfirmLinks { links } && links@ == job.links@
                } else {
                    album_or_final_ok(searched, r)
                }
            },
            (DiscoverStage::ConfirmingLinks, DiscoverEvent::LinksConfirmed { same_image }) => if same_image {
                finished(r)
            } else {
                album_or_final_ok(job, r)
            },
            (DiscoverStage::AddingToAlbum { step }, DiscoverEvent::AlbumAdded { added }) => {
                let had = match step {
                    AlbumStep::NotAlbum => false,
                    AlbumStep::Add { urls, .. } => urls@.len() > added,
                };
                if had {
                    finished(r)
                } else {
                    &&& same_photo(job, r.0)
                    &&& r.0.stage is Done
                    &&& final_ok(job, r.1)
                }
            },
            _ => finished(r),
        },
{
    match (job.stage, event) {
        (DiscoverStage::Searching, DiscoverEvent::Searched { matches }) => {
            let kept = match &job.path {
                DiscoverPath::Channel => close_matches(&matches),
                DiscoverPath::Group { order, .. } => {
                    let sorted = sort_by_sites(order, &matches);
                    close_matches(&sorted)
                },
            };
            let mut urls: Vec<String> = Vec::new();
            let mut i: usize = 0;
            while i < kept.len()
                invariant
                    i <= kept@.len(),
                    string_views(urls@) =~= urls_of(kept@.subrange(0, i as int)),
                decreases kept@.len() - i,
            {
                let ghost before = string_views(urls@);
                urls.push(kept[i].url.clone());
                assert(string_views(urls@) =~= before.push(kept@[i as int].url@));
                assert(kept@.subrange(0, i + 1) =~= kept@.subrange(0, i as int).push(kept@[i as int]));
                i = i + 1;
            }
            assert(kept@.subrange(0, kept@.len() as int) =~= kept@);
            let seen = link_was_seen(&job.links, &urls);
            let no_links = job.links.len() == 0;
            let searched = Discovery { matches: kept, stage: DiscoverStage::Searching, ..job };
            if searched.matches.len() == 0 || seen {
                (Discovery { stage: DiscoverStage::Done, ..searched }, DiscoverAction::Finish)
            } else if !no_links {
                let links = copy_strings(&searched.links);
                (Discovery { stage: DiscoverStage::ConfirmingLinks, ..searched }, DiscoverAction::ConfirmLinks { links })
            } else {
                album_or_final(searched)
            }
        },
        (DiscoverStage::ConfirmingLinks, DiscoverEvent::LinksConfirmed { same_image }) => {
            let job = Discovery { stage: DiscoverStage::ConfirmingLinks, ..job };
            if same_image {
                (Discovery { stage: DiscoverStage::Done, ..job }, DiscoverAction::Finish)
            } else {
                album_or_final(job)
            }
        },
        (DiscoverStage::AddingToAlbum { step }, DiscoverEvent::AlbumAdded { added }) => {
            let had = already_had_source(&step, added);
            let job = Discovery { stage: DiscoverStage::AddingToAlbum { step }, ..job };
            if had {
                (Discovery { stage: DiscoverStage::Done, ..job }, DiscoverAction::Finish)
            } else {
                final_step(job)
            }
        },
        (stage, _) => (Discovery { stage: DiscoverStage::Done, ..job }, DiscoverAction::Finish),
    }
}

} // verus!
