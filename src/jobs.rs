use vstd::prelude::*;
use vstd::string::StringExecFns;

use crate::gate::{needs_more_time_at, remaining_seconds, retry_at, retry_at_spec, retry_key_spec, GateRecord};
use crate::matches::{
    close_matches, close_matches_spec, is_close, lemma_close_from, rating_bundle_name,
    rating_message_name, ImageMatch,
};
use crate::ordering::{
    first_of_each_site, firsts_spec, is_first_of_site, lemma_first_of_each_site, lemma_sorted_from,
    links_of, sort_by_sites, sorted_by_sites,
};
use crate::resolver::{is_noisy, is_noisy_spec, site_count, NOISY_SOURCE_COUNT};
use crate::sites::Sites;
use crate::telegram::{
    ChatID, EditMessageCaption, EditMessageReplyMarkup, Error, InlineKeyboardButton,
    InlineKeyboardMarkup, Message, MessageOrBool, ReplyMarkup, SendMessage,
};
use crate::text::{copy_opt, decimal, decimal_spec};

verus! {

/// The queue that every job of the pipeline runs on.
pub const BACKGROUND_QUEUE: &'static str = "foxbot_background";

/// The four kinds of job of the pipeline.
#[derive(Clone, Copy, Debug, PartialEq, Eq, Structural)]
pub enum JobKind {
    /// Find the sources of a photo posted in a channel.
    ChannelUpdate,
    /// Show found sources on a channel message.
    ChannelEdit,
    /// Find the sources of a photo posted in a group.
    GroupPhoto,
    /// Reply with found sources in a group.
    GroupSource,
}

impl JobKind {
    pub open spec fn name_spec(self) -> Seq<char> {
        match self {
            JobKind::ChannelUpdate => "channel_update"@,
            JobKind::ChannelEdit => "channel_edit"@,
            JobKind::GroupPhoto => "group_photo"@,
            JobKind::GroupSource => "group_source"@,
        }
    }

    /// The job type under which the queue knows this kind.
    pub fn name(&self) -> (r: &'static str)
        ensures
            r@ == self.name_spec(),
    {
        match self {
            JobKind::ChannelUpdate => "channel_update",
            JobKind::ChannelEdit => "channel_edit",
            JobKind::GroupPhoto => "group_photo",
            JobKind::GroupSource => "group_source",
        }
    }
}

/// The payload of a channel edit: the message to annotate and its sources.
#[derive(Clone, Debug, PartialEq)]
pub struct MessageEdit {
    pub chat_id: String,
    pub message_id: i32,
    pub media_group_id: Option<String>,
    pub firsts: Vec<(Sites, String)>,
}

/// The payload of a group reply: where to reply and the rendered text.
#[derive(Clone, Debug, PartialEq)]
pub struct GroupSource {
    pub chat_id: String,
    pub reply_to_message_id: i32,
    pub text: String,
}

/// The sources that a channel photo is annotated with: the close matches,
/// ordered by the default site priority, the first of each site.
pub open spec fn channel_sources_spec(ms: Seq<ImageMatch>) -> Seq<ImageMatch> {
    firsts_spec(sorted_by_sites(Sites::default_order_spec(), close_matches_spec(ms)))
}

/// The edit payload holds the message's place and, for each site, the first
/// of the close matches once they are sorted by the default site priority.
pub open spec fn is_edit_payload(
    r: MessageEdit,
    chat_id: i64,
    message_id: i32,
    media_group_id: Option<String>,
    close: Seq<ImageMatch>,
) -> bool {
    &&& r.chat_id@ == decimal_spec(chat_id as int)
    &&& r.message_id == message_id
    &&& r.media_group_id == media_group_id
    &&& links_of(r.firsts@, firsts_spec(sorted_by_sites(Sites::default_order_spec(), close)))
}

/// Builds the payload of a channel edit from the message's place and its
/// close matches.
pub fn edit_payload(chat_id: i64, message_id: i32, media_group_id: &Option<String>, close: &Vec<ImageMatch>) -> (r: MessageEdit)
    ensures
        is_edit_payload(r, chat_id, message_id, *media_group_id, close@),
{
    let order = Sites::default_order();
    let sorted = sort_by_sites(&order, close);
    MessageEdit {
        chat_id: decimal(chat_id),
        message_id,
        media_group_id: copy_opt(media_group_id),
        firsts: first_of_each_site(&sorted),
    }
}

/// Builds the payload of the channel edit for a message from its close
/// matches: sorted by the default site priority and reduced to the first
/// match of each site.
pub fn channel_edit_payload(message: &Message, close: &Vec<ImageMatch>) -> (r: MessageEdit)
    ensures
        is_edit_payload(r, message.chat.id, message.message_id, message.media_group_id, close@),
{
    edit_payload(message.chat.id, message.message_id, &message.media_group_id, close)
}

/// The caption of an album photo: the source URLs, one per line.
pub open spec fn caption_spec(firsts: Seq<(Sites, String)>) -> Seq<char>
    decreases firsts.len(),
{
    if firsts.len() == 0 {
        Seq::empty()
    } else if firsts.len() == 1 {
        firsts[0].1@
    } else {
        caption_spec(firsts.drop_last()) + "\n"@ + firsts.last().1@
    }
}

/// The button is a link labelled with the site's name.
pub open spec fn is_link_button(b: InlineKeyboardButton, source: (Sites, String)) -> bool {
    &&& b.text@ == source.0.name()
    &&& b.url matches Some(u) && u@ == source.1@
    &&& b.callback_data is None
    &&& b.switch_inline_query is None
    &&& b.switch_inline_query_current_chat is None
}

/// One link button per source, in rows of two when their number is even
/// and in rows of one otherwise.
pub open spec fn is_source_keyboard(rows: Seq<Vec<InlineKeyboardButton>>, firsts: Seq<(Sites, String)>) -> bool {
    if firsts.len() % 2 == 0 {
        &&& rows.len() * 2 == firsts.len()
        &&& forall|i: int| 0 <= i < rows.len() ==> (#[trigger] rows[i])@.len() == 2
            && is_link_button(rows[i]@[0], firsts[2 * i]) && is_link_button(rows[i]@[1], firsts[2 * i + 1])
    } else {
        &&& rows.len() == firsts.len()
        &&& forall|i: int| 0 <= i < rows.len() ==> (#[trigger] rows[i])@.len() == 1
            && is_link_button(rows[i]@[0], firsts[i])
    }
}

/// The request that shows a channel edit's sources.
#[derive(Clone, Debug, PartialEq)]
pub enum ChannelEditRequest {
    /// An album photo gets the URLs as its caption.
    Caption(EditMessageCaption),
    /// A single photo gets a keyboard of link buttons.
    Markup(EditMessageReplyMarkup),
}

fn link_button(source: &(Sites, String)) -> (r: InlineKeyboardButton)
    ensures
        is_link_button(r, *source),
{
    InlineKeyboardButton {
        text: String::from_str(source.0.as_str()),
        url: Some(source.1.clone()),
        callback_data: None,
        switch_inline_query: None,
        switch_inline_query_current_chat: None,
    }
}

/// Joins the source URLs into a caption, one per line.
pub fn caption_of(firsts: &Vec<(Sites, String)>) -> (r: String)
    ensures
        r@ == caption_spec(firsts@),
{
    let mut r = String::new();
    let mut i: usize = 0;
    while i < firsts.len()
        invariant
            i <= firsts@.len(),
            r@ == caption_spec(firsts@.subrange(0, i as int)),
        decreases firsts@.len() - i,
    {
        proof {
            assert(firsts@.subrange(0, i + 1).drop_last() =~= firsts@.subrange(0, i as int));
        }
        if i == 0 {
            r = firsts[i].1.clone();
            assert(caption_spec(firsts@.subrange(0, 1)) == firsts@[0].1@);
        } else {
            r.append("\n");
            r.append(firsts[i].1.as_str());
        }
        i = i + 1;
    }
    assert(firsts@.subrange(0, firsts@.len() as int) =~= firsts@);
    r
}

/// Lays out one link button per source: rows of two when their number is
/// even, rows of one otherwise.
pub fn source_keyboard(firsts: &Vec<(Sites, String)>) -> (r: InlineKeyboardMarkup)
    ensures
        is_source_keyboard(r.inline_keyboard@, firsts@),
{
    let mut rows: Vec<Vec<InlineKeyboardButton>> = Vec::new();
    let n = firsts.len();
    if n % 2 == 0 {
        let mut i: usize = 0;
        while i < n / 2
            invariant
                n == firsts@.len(),
                n % 2 == 0,
                i <= n / 2,
                rows@.len() == i,
                forall|t: int| 0 <= t < i ==> (#[trigger] rows@[t])@.len() == 2
                    && is_link_button(rows@[t]@[0], firsts@[2 * t]) && is_link_button(rows@[t]@[1], firsts@[2 * t + 1]),
            decreases n / 2 - i,
        {
            let row = vec![link_button(&firsts[2 * i]), link_button(&firsts[2 * i + 1])];
            rows.push(row);
            i = i + 1;
        }
    } else {
        let mut i: usize = 0;
        while i < n
            invariant
                n == firsts@.len(),
                i <= n,
                rows@.len() == i,
                forall|t: int| 0 <= t < i ==> (#[trigger] rows@[t])@.len() == 1
                    && is_link_button(rows@[t]@[0], firsts@[t]),
            decreases n - i,
        {
            let row = vec![link_button(&firsts[i])];
            rows.push(row);
            i = i + 1;
        }
    }
    InlineKeyboardMarkup { inline_keyboard: rows }
}

/// Builds the request that annotates the message of a channel edit: a
/// caption of URLs for an album photo, a keyboard of link buttons for a
/// single photo. The chat is addressed by the payload's chat text.
pub fn channel_edit_request(edit: &MessageEdit) -> (r: ChannelEditRequest)
    ensures
        edit.media_group_id is Some <==> r is Caption,
        r matches ChannelEditRequest::Caption(c) ==> {
            &&& c.chat_id == ChatID::Username(edit.chat_id)
            &&& c.message_id == Some(edit.message_id)
            &&& c.inline_message_id is None
            &&& c.reply_markup is None
            &&& c.caption matches Some(t) && t@ == caption_spec(edit.firsts@)
        },
        r matches ChannelEditRequest::Markup(m) ==> {
            &&& m.chat_id == ChatID::Username(edit.chat_id)
            &&& m.message_id == Some(edit.message_id)
            &&& m.inline_message_id is None
            &&& m.reply_markup matches Some(ReplyMarkup::InlineKeyboardMarkup(k))
                && is_source_keyboard(k.inline_keyboard@, edit.firsts@)
        },
{
    if edit.media_group_id.is_some() {
        ChannelEditRequest::Caption(
            EditMessageCaption {
                chat_id: ChatID::Username(edit.chat_id.clone()),
                message_id: Some(edit.message_id),
                inline_message_id: None,
                caption: Some(caption_of(&edit.firsts)),
                reply_markup: None,
            },
        )
    } else {
        ChannelEditRequest::Markup(
            EditMessageReplyMarkup {
                chat_id: ChatID::Username(edit.chat_id.clone()),
                message_id: Some(edit.message_id),
                inline_message_id: None,
                reply_markup: Some(ReplyMarkup::InlineKeyboardMarkup(source_keyboard(&edit.firsts))),
            },
        )
    }
}

/// What an apply job does after the chat platform answered.
#[derive(Clone, Debug, PartialEq, Eq)]
pub enum ApplyOutcome {
    /// The job is finished: the request went through, or the platform
    /// refused it in a way that no retry can mend.
    Done,
    /// The platform asked to wait: write `record` so that other jobs for the
    /// chat wait too, and run the job again at `retry_at`. The job itself
    /// succeeds.
    RateLimited { retry_at: i64, record: GateRecord },
    /// The job failed; the queue will retry it.
    Failed,
}

/// The number of seconds to wait that an answer asks for, if any.
pub open spec fn retry_after_of(resp: Result<MessageOrBool, Error>) -> Option<i32> {
    match resp {
        Err(Error::Telegram(e)) => match e.parameters {
            Some(p) => p.retry_after,
            None => None,
        },
        _ => None,
    }
}

/// The error code of an answer, if the platform gave one.
pub open spec fn error_code_of(resp: Result<MessageOrBool, Error>) -> Option<i32> {
    match resp {
        Err(Error::Telegram(e)) => e.error_code,
        _ => None,
    }
}

/// The outcome for a request that must wait `secs` seconds, counted from
/// `now`: the job runs again at the retry time, and the chat's record holds
/// that time for as long as is left until it.
pub open spec fn is_rate_limited(r: ApplyOutcome, chat_id: Seq<char>, now: i64, secs: i32) -> bool {
    r matches ApplyOutcome::RateLimited { retry_at, record } && {
        &&& retry_at == retry_at_spec(now, secs)
        &&& record.key@ == retry_key_spec(chat_id)
        &&& record.at == retry_at
        &&& record.ttl_seconds == remaining_seconds(retry_at, now)
    }
}

fn rate_limited(chat_id: &str, now: i64, secs: i32) -> (r: ApplyOutcome)
    ensures
        is_rate_limited(r, chat_id@, now, secs),
{
    let at = retry_at(now, secs);
    ApplyOutcome::RateLimited { retry_at: at, record: needs_more_time_at(chat_id, at, now) }
}

fn retry_after(resp: &Result<MessageOrBool, Error>) -> (r: Option<i32>)
    ensures
        r == retry_after_of(*resp),
{
    match resp {
        Err(Error::Telegram(e)) => match &e.parameters {
            Some(p) => p.retry_after,
            None => None,
        },
        _ => None,
    }
}

fn error_code(resp: &Result<MessageOrBool, Error>) -> (r: Option<i32>)
    ensures
        r == error_code_of(*resp),
{
    match resp {
        Err(Error::Telegram(e)) => e.error_code,
        _ => None,
    }
}

/// Classifies the platform's answer to a channel edit for `chat_id` at
/// time `now`. A request to wait reschedules the job and records the wait
/// for the chat; codes 400 and 403 mean the message cannot be edited, which
/// ends the job; other errors fail it.
pub fn channel_edit_outcome(chat_id: &str, resp: &Result<MessageOrBool, Error>, now: i64) -> (r: ApplyOutcome)
    ensures
        match retry_after_of(*resp) {
            Some(secs) => is_rate_limited(r, chat_id@, now, secs),
            None => r == if resp is Ok || error_code_of(*resp) == Some(400i32) || error_code_of(*resp)
                == Some(403i32) {
                ApplyOutcome::Done
            } else {
                ApplyOutcome::Failed
            },
        },
{
    match retry_after(resp) {
        Some(secs) => rate_limited(chat_id, now, secs),
        None => {
            let code = error_code(resp);
            if resp.is_ok() || code == Some(400i32) || code == Some(403i32) {
                ApplyOutcome::Done
            } else {
                ApplyOutcome::Failed
            }
        },
    }
}

/// Classifies the platform's answer to a group reply for `chat_id` at time
/// `now`. A request to wait reschedules the job and records the wait for
/// the chat; code 400 ends it; other errors fail it.
pub fn group_source_outcome(chat_id: &str, resp: &Result<MessageOrBool, Error>, now: i64) -> (r: ApplyOutcome)
    ensures
        match retry_after_of(*resp) {
            Some(secs) => is_rate_limited(r, chat_id@, now, secs),
            None => r == if resp is Ok || error_code_of(*resp) == Some(400i32) {
                ApplyOutcome::Done
            } else {
                ApplyOutcome::Failed
            },
        },
{
    match retry_after(resp) {
        Some(secs) => rate_limited(chat_id, now, secs),
        None => {
            let code = error_code(resp);
            if resp.is_ok() || code == Some(400i32) {
                ApplyOutcome::Done
            } else {
                ApplyOutcome::Failed
            }
        },
    }
}

/// The reply that a group source job sends: the text, as a silent reply
/// without a link preview.
pub fn group_source_request(source: &GroupSource) -> (r: SendMessage)
    ensures
        r.chat_id == ChatID::Username(source.chat_id),
        r.text == source.text,
        r.reply_to_message_id == Some(source.reply_to_message_id),
        r.reply_markup is None,
        r.disable_web_page_preview == Some(true),
        r.disable_notification == Some(true),
{
    SendMessage {
        chat_id: ChatID::Username(source.chat_id.clone()),
        text: source.text.clone(),
        reply_to_message_id: Some(source.reply_to_message_id),
        reply_markup: None,
        disable_web_page_preview: Some(true),
        disable_notification: Some(true),
    }
}

/// The matches that a group reply considers: sorted by the sender's site
/// priority, then only the close ones.
pub fn group_matches(order: &Vec<Sites>, matches: &Vec<ImageMatch>) -> (r: Vec<ImageMatch>)
    requires
        order@.len() < usize::MAX,
    ensures
        r@ == close_matches_spec(sorted_by_sites(order@, matches@)),
{
    let sorted = sort_by_sites(order, matches);
    close_matches(&sorted)
}

/// A source line of a group reply: the link and the name of the message
/// that describes its rating.
pub open spec fn is_source_line(line: (String, String), m: ImageMatch) -> bool {
    line.0@ == m.url@ && line.1@ == rating_message_name(m.rating)
}

/// What a group reply says, before it is put in the sender's language.
#[derive(Clone, Debug, PartialEq)]
pub enum GroupText {
    /// One source: the single-match message with its link and rating.
    Single { link: String, rating: String },
    /// Several sources: a header, then one line per source with its link
    /// and rating.
    Multiple { lines: Vec<(String, String)> },
}

fn source_line(m: &ImageMatch) -> (r: (String, String))
    ensures
        is_source_line(r, *m),
{
    (m.url.clone(), String::from_str(rating_bundle_name(&m.rating)))
}

/// The reply plan for the wanted matches: none when there is no match,
/// when the message already links one of them, or when the list is noise;
/// otherwise the single-match text for one match and a line per match for
/// several.
pub open spec fn is_reply_plan(wanted: Seq<ImageMatch>, link_seen: bool, r: Option<GroupText>) -> bool {
    &&& r is None <==> (wanted.len() == 0 || link_seen || is_noisy_spec(wanted))
    &&& r matches Some(GroupText::Single { link, rating }) ==> wanted.len() == 1 && is_source_line(
        (link, rating),
        wanted[0],
    )
    &&& r matches Some(GroupText::Multiple { lines }) ==> {
        &&& wanted.len() > 1
        &&& lines@.len() == wanted.len()
        &&& forall|i: int| 0 <= i < lines@.len() ==> is_source_line(#[trigger] lines@[i], wanted[i])
    }
}

/// A group photo whose matches are mostly Twitter copies gets no reply:
/// with at least `NOISY_SOURCE_COUNT` Twitter matches and at most one
/// other, every reply plan is empty.
pub proof fn lemma_noise_filter(wanted: Seq<ImageMatch>, link_seen: bool, r: Option<GroupText>)
    requires
        site_count(wanted, Sites::Twitter) >= NOISY_SOURCE_COUNT,
        wanted.len() - site_count(wanted, Sites::Twitter) <= 1,
        is_reply_plan(wanted, link_seen, r),
    ensures
        r is None,
{
}

/// Decides whether a group photo gets a reply and what it says.
pub fn group_reply_plan(wanted: &Vec<ImageMatch>, link_seen: bool) -> (r: Option<GroupText>)
    ensures
        is_reply_plan(wanted@, link_seen, r),
{
    if wanted.len() == 0 || link_seen || is_noisy(wanted) {
        return None;
    }
    if wanted.len() == 1 {
        let (link, rating) = source_line(&wanted[0]);
        return Some(GroupText::Single { link, rating });
    }
    let mut lines: Vec<(String, String)> = Vec::new();
    let mut i: usize = 0;
    while i < wanted.len()
        invariant
            i <= wanted@.len(),
            lines@.len() == i,
            forall|t: int| 0 <= t < i ==> is_source_line(#[trigger] lines@[t], wanted@[t]),
        decreases wanted@.len() - i,
    {
        lines.push(source_line(&wanted[i]));
        i = i + 1;
    }
    Some(GroupText::Multiple { lines })
}

/// The text of a reply with several sources: the header and then each
/// rendered line, every one followed by a line break.
pub open spec fn multiple_text_spec(header: Seq<char>, lines: Seq<String>) -> Seq<char>
    decreases lines.len(),
{
    if lines.len() == 0 {
        header + "\n"@
    } else {
        multiple_text_spec(header, lines.drop_last()) + lines.last()@ + "\n"@
    }
}

/// Puts a rendered header and rendered source lines together.
pub fn compose_multiple(header: &str, lines: &Vec<String>) -> (r: String)
    ensures
        r@ == multiple_text_spec(header@, lines@),
{
    let mut r = String::from_str(header);
    r.append("\n");
    let mut i: usize = 0;
    while i < lines.len()
        invariant
            i <= lines@.len(),
            r@ == multiple_text_spec(header@, lines@.subrange(0, i as int)),
        decreases lines@.len() - i,
    {
        proof {
            assert(lines@.subrange(0, i + 1).drop_last() =~= lines@.subrange(0, i as int));
        }
        r.append(lines[i].as_str());
        r.append("\n");
        i = i + 1;
    }
    assert(lines@.subrange(0, lines@.len() as int) =~= lines@);
    r
}

/// Builds the payload of the reply to a group photo.
pub fn group_source_payload(message: &Message, text: String) -> (r: GroupSource)
    ensures
        r.chat_id@ == decimal_spec(message.chat.id as int),
        r.reply_to_message_id == message.message_id,
        r.text == text,
{
    GroupSource { chat_id: decimal(message.chat.id), reply_to_message_id: message.message_id, text }
}

/// No match farther than `MAX_SOURCE_DISTANCE` reaches a discover
/// outcome: every source that a channel photo is annotated with, and every
/// match that a group reply considers, is a close match of the search.
pub proof fn lemma_distance_filter(order: Seq<Sites>, ms: Seq<ImageMatch>)
    ensures
        forall|i: int|
            0 <= i < channel_sources_spec(ms).len() ==> is_close(#[trigger] channel_sources_spec(ms)[i])
                && ms.contains(channel_sources_spec(ms)[i]),
        forall|i: int|
            0 <= i < close_matches_spec(sorted_by_sites(order, ms)).len() ==> is_close(
                #[trigger] close_matches_spec(sorted_by_sites(order, ms))[i],
            ) && ms.contains(close_matches_spec(sorted_by_sites(order, ms))[i]),
{
    let close = close_matches_spec(ms);
    let sorted = sorted_by_sites(Sites::default_order_spec(), close);
    let out = firsts_spec(sorted);
    lemma_close_from(ms);
    lemma_sorted_from(Sites::default_order_spec(), close);
    lemma_first_of_each_site(sorted);
    assert forall|i: int| 0 <= i < out.len() implies is_close(#[trigger] out[i]) && ms.contains(out[i]) by {
        let k = choose|k: int| 0 <= k < sorted.len() && sorted[k] == #[trigger] out[i] && is_first_of_site(sorted, k);
        assert(sorted.contains(out[i]));
        assert(close.contains(out[i]));
    }
    let s2 = sorted_by_sites(order, ms);
    let c2 = close_matches_spec(s2);
    lemma_close_from(s2);
    lemma_sorted_from(order, ms);
    assert forall|i: int| 0 <= i < c2.len() implies is_close(#[trigger] c2[i]) && ms.contains(c2[i]) by {
        assert(c2.contains(c2[i]));
        assert(s2.contains(c2[i]));
    }
}

} // verus!
