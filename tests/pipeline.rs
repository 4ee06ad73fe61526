use std::collections::HashSet;

use foxbot::album::{album_step, already_had_source, group_sources_key, unique_urls, AlbumStep};
use foxbot::gate::{check_more_time, check_more_time_at, needs_more_time, needs_more_time_at, retry_at, retry_key};
use foxbot::jobs::{
    caption_of, channel_edit_outcome, channel_edit_payload, channel_edit_request,
    compose_multiple, group_matches, group_reply_plan, group_source_outcome,
    group_source_payload, group_source_request, source_keyboard, ApplyOutcome,
    ChannelEditRequest, GroupText, JobKind,
};
use foxbot::matches::{close_matches, rating_bundle_name, ImageMatch, Rating};
use foxbot::ordering::{first_of_each_site, rank_of, sort_by_sites};
use foxbot::resolver::{
    extract_links, find_best_photo, hash_bytes, hash_is_similar, is_noisy, link_was_seen,
};
use foxbot::sites::Sites;
use foxbot::telegram::{
    Chat, ChatID, ChatType, Error, Message, MessageEntity, MessageEntityType, MessageOrBool,
    PhotoSize, ReplyMarkup, ResponseParameters, TelegramError,
};
use foxbot::text::decimal;

fn found(site: Sites, url: &str, distance: Option<u64>) -> ImageMatch {
    ImageMatch {
        site,
        site_id: 1,
        url: url.to_string(),
        distance,
        rating: Some(Rating::General),
    }
}

fn photo(id: &str, width: i32, height: i32) -> PhotoSize {
    PhotoSize {
        file_id: id.to_string(),
        file_unique_id: format!("u{}", id),
        width,
        height,
        file_size: None,
    }
}

fn channel_message(text: Option<&str>, media_group_id: Option<&str>) -> Message {
    Message {
        message_id: 7,
        chat: Chat {
            id: -100123,
            chat_type: ChatType::Channel,
        },
        text: text.map(|t| t.to_string()),
        media_group_id: media_group_id.map(|g| g.to_string()),
        photo: Some(vec![photo("F1", 90, 90), photo("F1big", 800, 600)]),
        ..Default::default()
    }
}

/// A stand-in for the key-value store's set add: how many of the URLs were new.
fn set_add(store: &mut HashSet<String>, step: &AlbumStep) -> usize {
    match step {
        AlbumStep::NotAlbum => 0,
        AlbumStep::Add { urls, .. } => urls.iter().filter(|u| store.insert(u.to_string())).count(),
    }
}

fn urls_of(matches: &[ImageMatch]) -> Vec<String> {
    matches.iter().map(|m| m.url.clone()).collect()
}

#[test]
fn single_photo_gets_keyboard() {
    let message = channel_message(None, None);
    let sizes = message.photo.as_ref().unwrap();
    assert_eq!(find_best_photo(sizes), Some(1));

    let matches = vec![found(Sites::FurAffinity, "https://fa.example/v/1", Some(1))];
    let close = close_matches(&matches);
    assert_eq!(close.len(), 1);

    let links = extract_links(&message);
    assert!(links.is_empty());
    assert!(!link_was_seen(&links, &urls_of(&close)));

    let step = album_step(&message.media_group_id, &close);
    assert_eq!(step, AlbumStep::NotAlbum);
    assert!(!already_had_source(&step, 0));

    let edit = channel_edit_payload(&message, &close);
    assert_eq!(edit.chat_id, "-100123");
    assert_eq!(edit.message_id, 7);
    assert_eq!(edit.media_group_id, None);
    assert_eq!(
        edit.firsts,
        vec![(Sites::FurAffinity, "https://fa.example/v/1".to_string())]
    );
    assert_eq!(edit.firsts[0].0.as_str(), "FurAffinity");

    match channel_edit_request(&edit) {
        ChannelEditRequest::Markup(m) => {
            assert_eq!(m.chat_id, ChatID::Username("-100123".to_string()));
            assert_eq!(m.message_id, Some(7));
            let keyboard = match m.reply_markup {
                Some(ReplyMarkup::InlineKeyboardMarkup(k)) => k,
                _ => panic!("expected an inline keyboard"),
            };
            assert_eq!(keyboard.inline_keyboard.len(), 1);
            assert_eq!(keyboard.inline_keyboard[0].len(), 1);
            assert_eq!(keyboard.inline_keyboard[0][0].text, "FurAffinity");
            assert_eq!(
                keyboard.inline_keyboard[0][0].url,
                Some("https://fa.example/v/1".to_string())
            );
        }
        ChannelEditRequest::Caption(_) => panic!("a single photo gets a keyboard"),
    }
}

#[test]
fn link_already_in_text() {
    let message = channel_message(Some("look https://fa.example/v/1"), None);
    let matches = vec![found(Sites::FurAffinity, "https://fa.example/v/1", Some(1))];
    let close = close_matches(&matches);
    let links = extract_links(&message);
    assert_eq!(links, vec!["https://fa.example/v/1".to_string()]);
    assert!(link_was_seen(&links, &urls_of(&close)));
}

#[test]
fn album_annotated_once() {
    let mut store = HashSet::new();
    let url = "https://fa.example/v/2";

    let first = channel_message(None, Some("abc"));
    let close = close_matches(&vec![found(Sites::FurAffinity, url, Some(0))]);
    let step = album_step(&first.media_group_id, &close);
    match &step {
        AlbumStep::Add { key, urls } => {
            assert_eq!(key, "group-sources:abc");
            assert_eq!(urls, &vec![url.to_string()]);
        }
        AlbumStep::NotAlbum => panic!("the photo is in an album"),
    }
    let added = set_add(&mut store, &step);
    assert!(!already_had_source(&step, added));
    let edit = channel_edit_payload(&first, &close);
    match channel_edit_request(&edit) {
        ChannelEditRequest::Caption(c) => assert_eq!(c.caption, Some(url.to_string())),
        ChannelEditRequest::Markup(_) => panic!("an album photo gets a caption"),
    }

    let second = channel_message(None, Some("abc"));
    let step = album_step(&second.media_group_id, &close);
    let added = set_add(&mut store, &step);
    assert!(already_had_source(&step, added));
}

#[test]
fn rate_limited_edit() {
    let now = 1_000_000;
    let resp: Result<MessageOrBool, Error> = Err(Error::Telegram(TelegramError {
        error_code: Some(429),
        description: Some("Too Many Requests".to_string()),
        parameters: Some(ResponseParameters {
            migrate_to_chat_id: None,
            retry_after: Some(30),
        }),
    }));
    let outcome = channel_edit_outcome("42", &resp, now);
    let record = match outcome {
        ApplyOutcome::RateLimited { retry_at, record } => {
            assert_eq!(retry_at, now + 30);
            record
        }
        other => panic!("expected a rate limit, got {:?}", other),
    };
    assert_eq!(record.key, "retry-at:42");
    assert_eq!(record.at, now + 30);
    assert_eq!(record.ttl_seconds, 30);

    assert_eq!(check_more_time_at(Some(record.at), now + 10), Some(now + 30));
    assert_eq!(check_more_time_at(Some(record.at), now + 30), None);
}

#[test]
fn noisy_group_matches() {
    let mut matches = Vec::new();
    for i in 0..4 {
        matches.push(found(
            Sites::Twitter,
            &format!("https://twitter.example/{}", i),
            Some(0),
        ));
    }
    matches.push(found(Sites::FurAffinity, "https://fa.example/v/5", Some(1)));
    let wanted = group_matches(&Sites::default_order(), &matches);
    assert_eq!(wanted.len(), 5);
    assert!(is_noisy(&wanted));
    assert_eq!(group_reply_plan(&wanted, false), None);
}

#[test]
fn single_group_match() {
    let matches = vec![found(Sites::FurAffinity, "https://fa.example/v/9", Some(2))];
    let wanted = group_matches(&Sites::default_order(), &matches);
    assert_eq!(
        group_reply_plan(&wanted, false),
        Some(GroupText::Single {
            link: "https://fa.example/v/9".to_string(),
            rating: "rating-general".to_string(),
        })
    );
    let message = Message {
        message_id: 55,
        chat: Chat {
            id: -42,
            chat_type: ChatType::Supergroup,
        },
        ..Default::default()
    };
    let payload = group_source_payload(&message, "the text".to_string());
    assert_eq!(payload.chat_id, "-42");
    assert_eq!(payload.reply_to_message_id, 55);
    let request = group_source_request(&payload);
    assert_eq!(request.chat_id, ChatID::Username("-42".to_string()));
    assert_eq!(request.text, "the text");
    assert_eq!(request.reply_to_message_id, Some(55));
    assert_eq!(request.disable_web_page_preview, Some(true));
    assert_eq!(request.disable_notification, Some(true));
}

#[test]
fn album_memory_is_idempotent() {
    let mut store = HashSet::new();
    let close = close_matches(&vec![
        found(Sites::FurAffinity, "https://fa.example/v/1", Some(0)),
        found(Sites::E621, "https://e621.example/p/1", Some(1)),
        found(Sites::FurAffinity, "https://fa.example/v/1", Some(2)),
    ]);
    let group = Some("g".to_string());
    let step = album_step(&group, &close);
    match &step {
        AlbumStep::Add { urls, .. } => assert_eq!(urls.len(), 2),
        AlbumStep::NotAlbum => panic!("the photo is in an album"),
    }
    let added = set_add(&mut store, &step);
    assert!(!already_had_source(&step, added));
    let added = set_add(&mut store, &step);
    assert!(already_had_source(&step, added));

    let mut store = HashSet::new();
    let step = album_step(&Some("empty".to_string()), &Vec::new());
    let added = set_add(&mut store, &step);
    assert!(!already_had_source(&step, added));
    let added = set_add(&mut store, &step);
    assert!(!already_had_source(&step, added));
}

#[test]
fn photo_outside_album_is_never_suppressed() {
    let close = vec![found(Sites::FurAffinity, "https://fa.example/v/1", Some(0))];
    let step = album_step(&None, &close);
    assert_eq!(step, AlbumStep::NotAlbum);
    assert!(!already_had_source(&step, 0));
}

#[test]
fn album_jobs_with_shared_source() {
    let mut store = HashSet::new();
    let group = Some("shared".to_string());
    let first = vec![
        found(Sites::FurAffinity, "https://fa.example/v/1", Some(0)),
        found(Sites::E621, "https://e621.example/p/1", Some(0)),
    ];
    let second = vec![
        found(Sites::Twitter, "https://twitter.example/1", Some(0)),
        found(Sites::E621, "https://e621.example/p/1", Some(0)),
    ];
    let step = album_step(&group, &first);
    let added = set_add(&mut store, &step);
    assert!(!already_had_source(&step, added));
    let step = album_step(&group, &second);
    let added = set_add(&mut store, &step);
    assert!(already_had_source(&step, added));
}

#[test]
fn gate_answers_only_future_times() {
    assert_eq!(check_more_time_at(None, 100), None);
    assert_eq!(check_more_time_at(Some(99), 100), None);
    assert_eq!(check_more_time_at(Some(100), 100), None);
    assert_eq!(check_more_time_at(Some(101), 100), Some(101));
    let past = needs_more_time_at("chat", 50, 100);
    assert_eq!(past.ttl_seconds, 0);
    assert_eq!(past.key, retry_key("chat"));
    assert_eq!(retry_at(i64::MAX - 5, 30), i64::MAX);
    assert_eq!(retry_at(10, 30), 40);
}

#[test]
fn first_match_of_each_site_is_kept() {
    let matches = vec![
        found(Sites::Twitter, "https://twitter.example/1", Some(0)),
        found(Sites::FurAffinity, "https://fa.example/v/1", Some(3)),
        found(Sites::Twitter, "https://twitter.example/2", Some(0)),
        found(Sites::FurAffinity, "https://fa.example/v/2", Some(0)),
        found(Sites::Weasyl, "https://weasyl.example/1", Some(0)),
        found(Sites::E621, "https://e621.example/p/1", Some(2)),
    ];
    let sorted = sort_by_sites(&Sites::default_order(), &matches);
    let order: Vec<&str> = sorted.iter().map(|m| m.url.as_str()).collect();
    assert_eq!(
        order,
        vec![
            "https://fa.example/v/1",
            "https://fa.example/v/2",
            "https://e621.example/p/1",
            "https://twitter.example/1",
            "https://twitter.example/2",
            "https://weasyl.example/1",
        ]
    );
    assert_eq!(
        first_of_each_site(&sorted),
        vec![
            (Sites::FurAffinity, "https://fa.example/v/1".to_string()),
            (Sites::E621, "https://e621.example/p/1".to_string()),
            (Sites::Twitter, "https://twitter.example/1".to_string()),
            (Sites::Weasyl, "https://weasyl.example/1".to_string()),
        ]
    );
    assert_eq!(rank_of(&Sites::default_order(), Sites::E621), 1);
    assert_eq!(rank_of(&Sites::default_order(), Sites::Inkbunny), 3);
}

#[test]
fn far_matches_are_dropped() {
    let matches = vec![
        found(Sites::FurAffinity, "https://fa.example/v/1", Some(4)),
        found(Sites::E621, "https://e621.example/p/1", None),
        found(Sites::Twitter, "https://twitter.example/1", Some(3)),
        found(Sites::Weasyl, "https://weasyl.example/1", Some(0)),
    ];
    let close = close_matches(&matches);
    assert_eq!(
        urls_of(&close),
        vec!["https://twitter.example/1", "https://weasyl.example/1"]
    );
    let message = channel_message(None, None);
    let edit = channel_edit_payload(&message, &close);
    assert!(edit.firsts.iter().all(|(_, url)| url != "https://fa.example/v/1"));
    assert!(close_matches(&matches[..2].to_vec()).is_empty());
}

#[test]
fn noise_needs_many_twitter_matches() {
    let twitter = |i: i32| found(Sites::Twitter, &format!("https://twitter.example/{}", i), Some(0));
    let fa = |i: i32| found(Sites::FurAffinity, &format!("https://fa.example/v/{}", i), Some(0));
    assert!(is_noisy(&vec![twitter(1), twitter(2), twitter(3), twitter(4)]));
    assert!(!is_noisy(&vec![twitter(1), twitter(2), twitter(3)]));
    assert!(!is_noisy(&vec![twitter(1), twitter(2), twitter(3), twitter(4), fa(1), fa(2)]));
    assert!(group_reply_plan(&vec![twitter(1), twitter(2), fa(1)], false).is_some());
    assert_eq!(group_reply_plan(&vec![fa(1)], true), None);
    assert_eq!(group_reply_plan(&Vec::new(), false), None);
}

#[test]
fn group_reply_lists_every_match() {
    let mut adult = found(Sites::E621, "https://e621.example/p/3", Some(1));
    adult.rating = Some(Rating::Adult);
    let mut unknown = found(Sites::Twitter, "https://twitter.example/3", Some(1));
    unknown.rating = None;
    let wanted = vec![adult, unknown];
    assert_eq!(
        group_reply_plan(&wanted, false),
        Some(GroupText::Multiple {
            lines: vec![
                ("https://e621.example/p/3".to_string(), "rating-adult".to_string()),
                ("https://twitter.example/3".to_string(), "rating-unknown".to_string()),
            ]
        })
    );
    assert_eq!(rating_bundle_name(&Some(Rating::Mature)), "rating-mature");
    let text = compose_multiple("Sources:", &vec!["a".to_string(), "b".to_string()]);
    assert_eq!(text, "Sources:\na\nb\n");
    assert_eq!(compose_multiple("Sources:", &Vec::new()), "Sources:\n");
}

#[test]
fn group_order_follows_sender_priority() {
    let matches = vec![
        found(Sites::FurAffinity, "https://fa.example/v/1", Some(0)),
        found(Sites::Twitter, "https://twitter.example/1", Some(9)),
        found(Sites::E621, "https://e621.example/p/1", Some(1)),
    ];
    let wanted = group_matches(&vec![Sites::E621, Sites::FurAffinity], &matches);
    assert_eq!(
        urls_of(&wanted),
        vec!["https://e621.example/p/1", "https://fa.example/v/1"]
    );
}

#[test]
fn keyboard_rows_follow_button_count() {
    let two = vec![
        (Sites::FurAffinity, "a".to_string()),
        (Sites::E621, "b".to_string()),
    ];
    let k = source_keyboard(&two);
    assert_eq!(k.inline_keyboard.len(), 1);
    assert_eq!(k.inline_keyboard[0].len(), 2);
    assert_eq!(k.inline_keyboard[0][1].text, "e621");
    let three = vec![
        (Sites::FurAffinity, "a".to_string()),
        (Sites::E621, "b".to_string()),
        (Sites::Twitter, "c".to_string()),
    ];
    let k = source_keyboard(&three);
    assert_eq!(k.inline_keyboard.len(), 3);
    assert!(k.inline_keyboard.iter().all(|row| row.len() == 1));
    assert_eq!(k.inline_keyboard[2][0].url, Some("c".to_string()));
    assert_eq!(caption_of(&three), "a\nb\nc");
    assert_eq!(caption_of(&Vec::new()), "");
}

#[test]
fn apply_outcomes_by_error_code() {
    let error = |code: i32| -> Result<MessageOrBool, Error> {
        Err(Error::Telegram(TelegramError {
            error_code: Some(code),
            description: None,
            parameters: None,
        }))
    };
    let ok: Result<MessageOrBool, Error> = Ok(MessageOrBool::Bool(true));
    assert_eq!(channel_edit_outcome("1", &ok, 0), ApplyOutcome::Done);
    assert_eq!(channel_edit_outcome("1", &error(400), 0), ApplyOutcome::Done);
    assert_eq!(channel_edit_outcome("1", &error(403), 0), ApplyOutcome::Done);
    assert_eq!(channel_edit_outcome("1", &error(500), 0), ApplyOutcome::Failed);
    let transport: Result<MessageOrBool, Error> = Err(Error::Request("timeout".to_string()));
    assert_eq!(channel_edit_outcome("1", &transport, 0), ApplyOutcome::Failed);
    assert_eq!(group_source_outcome("1", &ok, 0), ApplyOutcome::Done);
    assert_eq!(group_source_outcome("1", &error(400), 0), ApplyOutcome::Done);
    assert_eq!(group_source_outcome("1", &error(403), 0), ApplyOutcome::Failed);
    let limited: Result<MessageOrBool, Error> = Err(Error::Telegram(TelegramError {
        error_code: Some(429),
        description: None,
        parameters: Some(ResponseParameters {
            migrate_to_chat_id: None,
            retry_after: Some(5),
        }),
    }));
    match group_source_outcome("7", &limited, 100) {
        ApplyOutcome::RateLimited { retry_at, record } => {
            assert_eq!(retry_at, 105);
            assert_eq!(record.key, "retry-at:7");
            assert_eq!(record.at, 105);
            assert_eq!(record.ttl_seconds, 5);
        }
        other => panic!("expected a rate limit, got {:?}", other),
    }
}

#[test]
fn links_come_from_text_entities_and_caption() {
    let message = Message {
        text: Some("see https://one.example/a and mail me@example.org".to_string()),
        entities: Some(vec![
            MessageEntity {
                entity_type: MessageEntityType::TextLink,
                offset: 0,
                length: 3,
                url: Some("https://two.example/b".to_string()),
                user: None,
            },
            MessageEntity {
                entity_type: MessageEntityType::Bold,
                offset: 0,
                length: 3,
                url: Some("https://ignored.example".to_string()),
                user: None,
            },
        ]),
        caption: Some("from https://three.example/c".to_string()),
        ..Default::default()
    };
    assert_eq!(
        extract_links(&message),
        vec![
            "https://one.example/a".to_string(),
            "https://two.example/b".to_string(),
            "https://three.example/c".to_string(),
        ]
    );
    let keys = vec!["https://x.example".to_string()];
    assert!(!link_was_seen(&keys, &vec!["https://y.example".to_string()]));
    assert!(!link_was_seen(&Vec::new(), &keys));
}

#[test]
fn similar_hashes_are_within_three_bits() {
    assert_eq!(hash_bytes(0x0102030405060708), vec![1, 2, 3, 4, 5, 6, 7, 8]);
    assert_eq!(hash_bytes(-1), vec![255; 8]);
    assert!(hash_is_similar(0, &vec![0, 0, 0, 0, 0, 0, 0, 7]));
    assert!(!hash_is_similar(0, &vec![0, 0, 0, 0, 0, 0, 0, 15]));
    assert!(hash_is_similar(-1, &vec![255, 255, 255, 255, 255, 255, 255, 254]));
    assert!(!hash_is_similar(0x0102030405060708, &vec![0, 0, 0, 0, 0, 0, 0, 0]));
    assert!(!hash_is_similar(0, &vec![0, 0, 0, 0, 0, 0, 0]));
}

#[test]
fn best_photo_is_the_largest() {
    assert_eq!(find_best_photo(&Vec::new()), None);
    let sizes = vec![photo("a", 10, 10), photo("b", 20, 5), photo("c", 5, 20), photo("d", 2, 2)];
    assert_eq!(find_best_photo(&sizes), Some(2));
}

#[test]
fn site_names_round_trip() {
    for site in [Sites::FurAffinity, Sites::E621, Sites::Twitter, Sites::Weasyl, Sites::Inkbunny] {
        assert_eq!(Sites::parse(site.as_str()), Ok(site));
        assert_eq!(site.as_str().parse::<Sites>(), Ok(site));
    }
    assert!(Sites::parse("e926").is_err());
    assert_eq!(Sites::E621.as_str(), "e621");
}

#[test]
fn keys_and_numbers_are_written_plainly() {
    assert_eq!(decimal(0), "0");
    assert_eq!(decimal(1234567890), "1234567890");
    assert_eq!(decimal(-1001234567890), "-1001234567890");
    assert_eq!(decimal(i64::MIN), "-9223372036854775808");
    assert_eq!(group_sources_key("abc"), "group-sources:abc");
    assert_eq!(retry_key("-100"), "retry-at:-100");
    assert_eq!(JobKind::ChannelEdit.name(), "channel_edit");
    assert_eq!(JobKind::GroupSource.name(), "group_source");
    assert_eq!(
        unique_urls(&vec!["b".to_string(), "a".to_string(), "b".to_string()]),
        vec!["b".to_string(), "a".to_string()]
    );
}

#[test]
fn gate_against_the_clock() {
    assert_eq!(check_more_time(None), None);
    assert_eq!(check_more_time(Some(0)), None);
    assert_eq!(check_more_time(Some(i64::MAX)), Some(i64::MAX));
    let record = needs_more_time("9", 0);
    assert_eq!(record.key, "retry-at:9");
    assert_eq!(record.at, 0);
    assert_eq!(record.ttl_seconds, 0);
    assert!(needs_more_time("9", i64::MAX).ttl_seconds > 0);
}
