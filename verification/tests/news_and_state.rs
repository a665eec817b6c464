use acter::content::{FormattedBody, ImageContent, MediaInfo, TextContent};
use acter::group::{CreateGroupSettingsBuilder, Visibility};
use acter::news::{
    select_latest_news, select_latest_news_in_rooms, Colorize, NewsContent, NewsEntry,
    NewsEntryBuilder, NewsEntryEventContent, NewsEntryUpdateBuilder, NewsEntryUpdateEventContent,
    NewsSlide,
};
use acter::receipt::{receipt_event_from_content, EventReadReceipts, ReceiptEvent, UserRead};
use acter::stream::TimelineDiff;
use acter::timeline::{EventSendState, ReactionRecord, RoomVirtualItem, SendState};

fn text_slide(body: &str) -> NewsSlide {
    NewsSlide {
        content: NewsContent::Text(TextContent { body: body.to_string(), formatted: None }),
        references: vec![],
    }
}

#[test]
fn slide_text_prefers_formatted_rendering() {
    let slide = NewsSlide {
        content: NewsContent::Text(TextContent {
            body: "plain".to_string(),
            formatted: Some(FormattedBody { html: true, body: "<b>rich</b>".to_string() }),
        }),
        references: vec!["$task1".to_string()],
    };
    assert_eq!(slide.text(), "<b>rich</b>");
    assert_eq!(slide.type_str(), "text");
    assert_eq!(slide.references(), vec!["$task1".to_string()]);
    assert!(slide.image_desc().is_none());

    let image = NewsSlide {
        content: NewsContent::Image(ImageContent {
            body: "KingFisher".to_string(),
            source: Some("mxc://media/kf".to_string()),
            info: Some(MediaInfo {
                mimetype: Some("image/jpeg".to_string()),
                size: Some(100),
                width: None,
                height: None,
                blurhash: Some("KingFisherHash".to_string()),
                duration: None,
            }),
        }),
        references: vec![],
    };
    assert_eq!(image.text(), "KingFisher");
    assert_eq!(image.type_str(), "image");
    let desc = image.image_desc().expect("image with metadata");
    assert_eq!(desc.name(), "KingFisher");
    assert_eq!(desc.mimetype().as_deref(), Some("image/jpeg"));
    assert!(image.content().image().is_some());
    assert!(image.content().text().is_none());
}

#[test]
fn news_update_applies_present_fields() {
    let mut entry = NewsEntryEventContent {
        slides: vec![text_slide("old slide")],
        colors: None,
    };
    let update = NewsEntryUpdateEventContent {
        news_entry_id: "$news1".to_string(),
        slides: Some(vec![text_slide("new one"), text_slide("new two")]),
        colors: Some(Some(Colorize { color: Some(0xffffff), background: Some(0x000000) })),
    };
    assert!(update.apply(&mut entry));
    assert_eq!(entry.slides.len(), 2);
    assert_eq!(entry.slides[0].text(), "new one");
    assert_eq!(entry.colors, Some(Colorize { color: Some(0xffffff), background: Some(0x000000) }));

    let noop = NewsEntryUpdateEventContent {
        news_entry_id: "$news1".to_string(),
        slides: None,
        colors: None,
    };
    assert!(!noop.apply(&mut entry));
    assert_eq!(entry.slides.len(), 2);

    let clear_colors = NewsEntryUpdateEventContent {
        news_entry_id: "$news1".to_string(),
        slides: None,
        colors: Some(None),
    };
    assert!(clear_colors.apply(&mut entry));
    assert!(entry.colors.is_none());
}

#[test]
fn news_builders_demand_their_required_fields() {
    let empty = NewsEntryBuilder::new();
    assert!(empty.build().is_err(), "slides are required");

    let mut builder = NewsEntryBuilder::new();
    builder.slides(vec![text_slide("one")]);
    let content = builder.build().expect("slides supplied");
    assert_eq!(content.slides.len(), 1);
    assert!(content.colors.is_none());

    let empty_update = NewsEntryUpdateBuilder::new();
    assert!(empty_update.build().is_err(), "the patched entry must be named");

    let mut builder = NewsEntryUpdateBuilder::new();
    builder.news_entry("$news1".to_string());
    builder.colors(None);
    let update = builder.build().expect("entry named");
    assert_eq!(update.news_entry_id, "$news1");
    assert_eq!(update.colors, Some(None));
    assert!(update.slides.is_none());
}

#[test]
fn latest_news_selection_is_newest_first_and_truncated() {
    let entry = |id: &str| NewsEntry {
        event_id: id.to_string(),
        room_id: "!room:x".to_string(),
        content: NewsEntryEventContent { slides: vec![], colors: None },
    };
    let all = vec![entry("$a"), entry("$b"), entry("$c"), entry("$d")];
    let picked = select_latest_news(all, 3);
    let ids: Vec<String> = picked.iter().map(|e| e.event_id()).collect();
    assert_eq!(ids, vec!["$d".to_string(), "$c".to_string(), "$b".to_string()]);

    let all = vec![entry("$a")];
    let picked = select_latest_news(all, 5);
    assert_eq!(picked.len(), 1);
    assert_eq!(picked[0].event_id(), "$a");
}

#[test]
fn latest_news_skips_rooms_the_user_left() {
    let entry = |id: &str, room: &str| NewsEntry {
        event_id: id.to_string(),
        room_id: room.to_string(),
        content: NewsEntryEventContent { slides: vec![], colors: None },
    };
    let all = vec![
        entry("$a", "!kept:x"),
        entry("$b", "!left:x"),
        entry("$c", "!kept:x"),
        entry("$d", "!left:x"),
    ];
    let known = vec!["!kept:x".to_string()];
    let picked = select_latest_news_in_rooms(all, &known, 3);
    let ids: Vec<String> = picked.iter().map(|e| e.event_id()).collect();
    assert_eq!(ids, vec!["$c".to_string(), "$a".to_string()]);
}

#[test]
fn news_entry_exposes_slides_and_fixed_counters() {
    let entry = NewsEntry {
        event_id: "$news1".to_string(),
        room_id: "!room:x".to_string(),
        content: NewsEntryEventContent {
            slides: vec![text_slide("first"), text_slide("second")],
            colors: None,
        },
    };
    assert_eq!(entry.slides_count(), 2);
    assert_eq!(entry.get_slide(1).expect("second slide").text(), "second");
    assert!(entry.get_slide(2).is_none());
    assert_eq!(entry.comments_count(), 4);
    assert_eq!(entry.likes_count(), 19);
}

#[test]
fn receipt_event_flattens_in_order() {
    let entries = vec![
        EventReadReceipts {
            event_id: "$m1".to_string(),
            reads: vec![
                UserRead { user_id: "@a:x".to_string(), timestamp: 10 },
                UserRead { user_id: "@b:x".to_string(), timestamp: 11 },
            ],
        },
        EventReadReceipts {
            event_id: "$m2".to_string(),
            reads: vec![UserRead { user_id: "@c:x".to_string(), timestamp: 12 }],
        },
    ];
    let ev = receipt_event_from_content("!room:x".to_string(), &entries);
    assert_eq!(ev.room_id(), "!room:x");
    let records = ev.receipt_records();
    assert_eq!(records.len(), 3);
    assert_eq!(records[0].event_id(), "$m1");
    assert_eq!(records[0].user_id(), "@a:x");
    assert_eq!(records[0].timestamp(), 10);
    assert_eq!(records[2].event_id(), "$m2");
    assert_eq!(records[2].user_id(), "@c:x");
}

#[test]
fn receipt_event_records_append() {
    let mut ev = ReceiptEvent::new("!room:x".to_string());
    ev.add_receipt_record("$m1".to_string(), "@a:x".to_string(), 7);
    ev.add_receipt_record("$m2".to_string(), "@a:x".to_string(), 9);
    let records = ev.receipt_records();
    assert_eq!(records.len(), 2);
    assert_eq!(records[1].event_id(), "$m2");
    assert_eq!(records[1].timestamp(), 9);
}

#[test]
fn item_receipts_look_up_by_user() {
    let ev = acter::live::TimelineEventModel {
        is_local_echo: false,
        send_state: None,
        transaction_id: None,
        event_id: Some("$e".to_string()),
        sender: "@alice:x".to_string(),
        timestamp: 1,
        read_receipts: vec![acter::timeline::UserReceipt {
            seen_by: "@bob:x".to_string(),
            ts: Some(5),
        }],
        reactions: vec![],
        content: acter::live::TimelineContentModel::Message(acter::live::MessageDetails {
            msgtype: acter::content::MsgPayload::Text(TextContent {
                body: "x".to_string(),
                formatted: None,
            }),
            in_reply_to: None,
            is_edited: false,
            latest_edit: None,
        }),
    };
    let msg = acter::timeline::RoomMessage::from_timeline_event_item(
        &ev,
        "!room:x".to_string(),
        None,
    );
    let item = msg.event_item().unwrap();
    assert_eq!(item.receipt_ts("@bob:x".to_string()), Some(5));
    assert_eq!(item.receipt_ts("@nobody:x".to_string()), None);
}

#[test]
fn reaction_record_getters_round_trip() {
    let rec = ReactionRecord::new("@a:x".to_string(), 42, true);
    assert_eq!(rec.sender_id(), "@a:x");
    assert_eq!(rec.timestamp(), 42);
    assert!(rec.sent_by_me());
}

#[test]
fn send_state_flattening_keeps_only_relevant_fields() {
    let failed = EventSendState::new(&SendState::SendingFailed {
        error: "no network".to_string(),
    });
    assert_eq!(failed.state(), "SendingFailed");
    assert_eq!(failed.error().as_deref(), Some("no network"));
    assert!(failed.event_id().is_none());

    let sent = EventSendState::new(&SendState::Sent { event_id: "$done".to_string() });
    assert_eq!(sent.state(), "Sent");
    assert!(sent.error().is_none());
    assert_eq!(sent.event_id().as_deref(), Some("$done"));

    let cancelled = EventSendState::new(&SendState::Cancelled);
    assert_eq!(cancelled.state(), "Cancelled");
}

#[test]
fn virtual_item_getters_round_trip() {
    let v = RoomVirtualItem::new("DayDivider".to_string(), Some("2026-01-01".to_string()));
    assert_eq!(v.event_type(), "DayDivider");
    assert_eq!(v.desc().as_deref(), Some("2026-01-01"));
}

#[test]
fn timeline_diff_exposes_fields_per_action() {
    let diff = TimelineDiff::new_remove(4);
    assert_eq!(diff.action(), "Remove");
    // the accessors gate on the historical action names, so a `Remove`
    // diff exposes no index through `index()`
    assert!(diff.index().is_none());
    assert!(diff.value().is_none());
    assert!(diff.values().is_none());
    assert!(diff.old_index().is_none());
    assert!(diff.new_index().is_none());

    let diff = TimelineDiff::new_clear();
    assert_eq!(diff.action(), "Clear");

    let diff = TimelineDiff::new_pop_back();
    assert_eq!(diff.action(), "PopBack");
    let diff = TimelineDiff::new_pop_front();
    assert_eq!(diff.action(), "PopFront");
}

#[test]
fn group_settings_builder_applies_defaults() {
    let mut builder = CreateGroupSettingsBuilder::new();
    builder.name("Ops".to_string());
    builder.alias("ops".to_string());
    let settings = builder.build().expect("name and alias supplied");
    assert_eq!(settings.name().as_deref(), Some("Ops"));
    assert_eq!(settings.alias().as_deref(), Some("ops"));
    assert_eq!(settings.visibility(), Visibility::Private);
    assert!(settings.invites.is_empty());

    let mut builder = CreateGroupSettingsBuilder::new();
    builder.name("Ops".to_string());
    assert!(builder.build().is_err(), "alias is required");

    let mut builder = CreateGroupSettingsBuilder::new();
    builder.name("Ops".to_string());
    builder.alias("ops".to_string());
    builder.visibility(Visibility::Public);
    builder.invites(vec!["@kira:x".to_string()]);
    let settings = builder.build().unwrap();
    assert_eq!(settings.visibility(), Visibility::Public);
    assert_eq!(settings.invites, vec!["@kira:x".to_string()]);
}
