use foxbot::discover::{
    start_discovery, step_discovery, DiscoverAction, DiscoverEvent, DiscoverPath, Discovery,
};
use foxbot::jobs::GroupText;
use foxbot::matches::{ImageMatch, Rating};
use foxbot::sites::Sites;
use foxbot::telegram::{Chat, ChatType, Message, PhotoSize};

fn found(site: Sites, url: &str, distance: Option<u64>) -> ImageMatch {
    ImageMatch {
        site,
        site_id: 9,
        url: url.to_string(),
        distance,
        rating: Some(Rating::General),
    }
}

fn photo_message(chat_type: ChatType, text: Option<&str>, group: Option<&str>) -> Message {
    Message {
        message_id: 31,
        chat: Chat { id: 42, chat_type },
        text: text.map(|t| t.to_string()),
        media_group_id: group.map(|g| g.to_string()),
        photo: Some(vec![
            PhotoSize {
                file_id: "small".to_string(),
                file_unique_id: "us".to_string(),
                width: 90,
                height: 60,
                file_size: None,
            },
            PhotoSize {
                file_id: "F1".to_string(),
                file_unique_id: "u1".to_string(),
                width: 1280,
                height: 960,
                file_size: Some(1000),
            },
        ]),
        ..Default::default()
    }
}

fn searched(job: Discovery, matches: Vec<ImageMatch>) -> (Discovery, DiscoverAction) {
    step_discovery(job, DiscoverEvent::Searched { matches })
}

#[test]
fn discovery_edits_single_channel_photo() {
    let message = photo_message(ChatType::Channel, None, None);
    let (job, action) = start_discovery(DiscoverPath::Channel, &message);
    match action {
        DiscoverAction::Search { photo } => assert_eq!(photo.file_id, "F1"),
        other => panic!("expected a search, got {:?}", other),
    }
    let (_, action) = searched(job, vec![found(Sites::FurAffinity, "https://fa.example/v/1", Some(1))]);
    match action {
        DiscoverAction::EnqueueEdit { edit } => {
            assert_eq!(edit.chat_id, "42");
            assert_eq!(edit.message_id, 31);
            assert_eq!(edit.media_group_id, None);
            assert_eq!(
                edit.firsts,
                vec![(Sites::FurAffinity, "https://fa.example/v/1".to_string())]
            );
        }
        other => panic!("expected an edit, got {:?}", other),
    }
}

#[test]
fn discovery_stops_on_linked_source() {
    let message = photo_message(ChatType::Channel, Some("look https://fa.example/v/1"), None);
    let (job, _) = start_discovery(DiscoverPath::Channel, &message);
    let (job, action) = searched(job, vec![found(Sites::FurAffinity, "https://fa.example/v/1", Some(1))]);
    assert!(matches!(action, DiscoverAction::Finish));
    let (_, action) = step_discovery(job, DiscoverEvent::AlbumAdded { added: 0 });
    assert!(matches!(action, DiscoverAction::Finish));
}

#[test]
fn discovery_confirms_other_links() {
    let message = photo_message(ChatType::Channel, Some("art at https://other.example/p"), None);
    let matches = vec![found(Sites::E621, "https://e621.example/p/1", Some(0))];

    let (job, _) = start_discovery(DiscoverPath::Channel, &message);
    let (job, action) = searched(job, matches.clone());
    match action {
        DiscoverAction::ConfirmLinks { links } => {
            assert_eq!(links, vec!["https://other.example/p".to_string()])
        }
        other => panic!("expected link confirmation, got {:?}", other),
    }
    let (_, action) = step_discovery(job, DiscoverEvent::LinksConfirmed { same_image: true });
    assert!(matches!(action, DiscoverAction::Finish));

    let (job, _) = start_discovery(DiscoverPath::Channel, &message);
    let (job, _) = searched(job, matches);
    let (_, action) = step_discovery(job, DiscoverEvent::LinksConfirmed { same_image: false });
    assert!(matches!(action, DiscoverAction::EnqueueEdit { .. }));
}

#[test]
fn discovery_annotates_album_once() {
    let url = "https://fa.example/v/2";
    let first = photo_message(ChatType::Channel, None, Some("abc"));
    let (job, _) = start_discovery(DiscoverPath::Channel, &first);
    let (job, action) = searched(job, vec![found(Sites::FurAffinity, url, Some(0))]);
    match action {
        DiscoverAction::AddToAlbum { key, urls } => {
            assert_eq!(key, "group-sources:abc");
            assert_eq!(urls, vec![url.to_string()]);
        }
        other => panic!("expected an album add, got {:?}", other),
    }
    let (_, action) = step_discovery(job, DiscoverEvent::AlbumAdded { added: 1 });
    match action {
        DiscoverAction::EnqueueEdit { edit } => {
            assert_eq!(edit.media_group_id, Some("abc".to_string()));
        }
        other => panic!("expected an edit, got {:?}", other),
    }

    let second = photo_message(ChatType::Channel, None, Some("abc"));
    let (job, _) = start_discovery(DiscoverPath::Channel, &second);
    let (job, _) = searched(job, vec![found(Sites::FurAffinity, url, Some(0))]);
    let (_, action) = step_discovery(job, DiscoverEvent::AlbumAdded { added: 0 });
    assert!(matches!(action, DiscoverAction::Finish));
}

#[test]
fn discovery_skips_noisy_group_matches() {
    let message = photo_message(ChatType::Group, None, None);
    let path = DiscoverPath::Group {
        enabled: true,
        order: Sites::default_order(),
    };
    let (job, _) = start_discovery(path, &message);
    let mut matches: Vec<ImageMatch> = (0..4)
        .map(|i| found(Sites::Twitter, &format!("https://twitter.example/{}", i), Some(0)))
        .collect();
    matches.push(found(Sites::FurAffinity, "https://fa.example/v/5", Some(2)));
    let (_, action) = searched(job, matches);
    assert!(matches!(action, DiscoverAction::Finish));
}

#[test]
fn discovery_replies_in_group() {
    let message = photo_message(ChatType::Supergroup, None, None);
    let path = DiscoverPath::Group {
        enabled: true,
        order: Sites::default_order(),
    };
    let (job, _) = start_discovery(path, &message);
    let (_, action) = searched(job, vec![found(Sites::FurAffinity, "https://fa.example/v/9", Some(1))]);
    match action {
        DiscoverAction::Reply { text } => assert_eq!(
            text,
            GroupText::Single {
                link: "https://fa.example/v/9".to_string(),
                rating: "rating-general".to_string(),
            }
        ),
        other => panic!("expected a reply, got {:?}", other),
    }
}

#[test]
fn discovery_needs_photo_and_enabled_group() {
    let mut message = photo_message(ChatType::Channel, None, None);
    let path = DiscoverPath::Group {
        enabled: false,
        order: Sites::default_order(),
    };
    let (_, action) = start_discovery(path, &message);
    assert!(matches!(action, DiscoverAction::Finish));

    message.photo = None;
    let (_, action) = start_discovery(DiscoverPath::Channel, &message);
    assert!(matches!(action, DiscoverAction::Finish));

    message.photo = Some(Vec::new());
    let (_, action) = start_discovery(DiscoverPath::Channel, &message);
    assert!(matches!(action, DiscoverAction::Finish));
}

#[test]
fn discovery_without_close_match_does_nothing() {
    let message = photo_message(ChatType::Channel, None, None);
    let (job, _) = start_discovery(DiscoverPath::Channel, &message);
    let (_, action) = searched(
        job,
        vec![
            found(Sites::FurAffinity, "https://fa.example/v/1", Some(4)),
            found(Sites::E621, "https://e621.example/p/1", None),
        ],
    );
    assert!(matches!(action, DiscoverAction::Finish));
}
