use acter::content::{FormattedBody, ImageContent, MediaInfo, MsgPayload, TextContent};
use acter::events::{Relation, SyncEvent, SyncEventContent};
use acter::message::{sync_event_to_message, RoomMessage, RoomMessageContent};

fn message_event(msgtype: MsgPayload, relates_to: Option<Relation>) -> SyncEvent {
    SyncEvent {
        event_id: "$msg1".to_string(),
        sender: "@alice:example.org".to_string(),
        origin_server_ts: 1_650_000_000_000,
        content: SyncEventContent::RoomMessage { msgtype, relates_to },
    }
}

#[test]
fn summary_carries_identity_and_body() {
    let ev = message_event(
        MsgPayload::Text(TextContent {
            body: "Hi, everyone".to_string(),
            formatted: Some(FormattedBody {
                html: true,
                body: "<em>Hi, everyone</em>".to_string(),
            }),
        }),
        None,
    );
    let msg = RoomMessage::from_original(&ev, "!room:x".to_string());
    assert_eq!(msg.event_id(), "$msg1");
    assert_eq!(msg.room_id(), "!room:x");
    assert_eq!(msg.sender(), "@alice:example.org");
    assert_eq!(msg.origin_server_ts(), Some(1_650_000_000_000));
    assert!(!msg.undecrypted());
    assert_eq!(msg.msgtype().as_deref(), Some("m.text"));
    assert_eq!(msg.body().as_deref(), Some("Hi, everyone"));
    assert_eq!(msg.formatted_body().as_deref(), Some("<em>Hi, everyone</em>"));
    assert_eq!(msg.replying(), Some(false));
}

#[test]
fn non_html_formatting_is_dropped() {
    let ev = message_event(
        MsgPayload::Text(TextContent {
            body: "plain".to_string(),
            formatted: Some(FormattedBody { html: false, body: "org-mode".to_string() }),
        }),
        None,
    );
    let msg = RoomMessage::from_original(&ev, "!room:x".to_string());
    assert!(msg.formatted_body().is_none());
}

#[test]
fn reply_relation_sets_replying() {
    let ev = message_event(
        MsgPayload::Text(TextContent { body: "answer".to_string(), formatted: None }),
        Some(Relation::Reply { event_id: "$q".to_string() }),
    );
    let msg = RoomMessage::from_original(&ev, "!room:x".to_string());
    assert_eq!(msg.replying(), Some(true));
}

#[test]
fn image_summary_keeps_description_only_with_metadata() {
    let with_info = message_event(
        MsgPayload::Image(ImageContent {
            body: "kingfisher.jpg".to_string(),
            source: Some("mxc://media/kf".to_string()),
            info: Some(MediaInfo {
                mimetype: Some("image/jpeg".to_string()),
                size: Some(4096),
                width: Some(640),
                height: Some(480),
                blurhash: None,
                duration: None,
            }),
        }),
        None,
    );
    let msg = RoomMessage::from_original(&with_info, "!room:x".to_string());
    let desc = msg.image_description().expect("metadata present");
    assert_eq!(desc.name(), "kingfisher.jpg");
    assert_eq!(desc.mimetype().as_deref(), Some("image/jpeg"));
    assert_eq!(desc.size(), Some(4096));
    assert_eq!(desc.width(), Some(640));
    assert_eq!(desc.height(), Some(480));
    assert!(msg.file_description().is_none());

    let without_info = message_event(
        MsgPayload::Image(ImageContent {
            body: "kingfisher.jpg".to_string(),
            source: None,
            info: None,
        }),
        None,
    );
    let msg = RoomMessage::from_original(&without_info, "!room:x".to_string());
    assert!(msg.image_description().is_none());
}

#[test]
fn encrypted_summary_is_a_placeholder() {
    let ev = SyncEvent {
        event_id: "$enc1".to_string(),
        sender: "@alice:example.org".to_string(),
        origin_server_ts: 1,
        content: SyncEventContent::RoomEncrypted {
            scheme: acter::events::EncryptionScheme::MegolmV1AesSha2,
        },
    };
    let msg = RoomMessage::from_timeline_event(&ev, "!room:x".to_string());
    assert_eq!(msg.msgtype().as_deref(), Some("m.room.encrypted"));
    assert_eq!(msg.body().as_deref(), Some("OriginalSyncRoomEncryptedEvent"));
}

#[test]
fn dispatcher_summarizes_only_messages() {
    let ev = message_event(
        MsgPayload::Text(TextContent { body: "x".to_string(), formatted: None }),
        None,
    );
    assert!(sync_event_to_message(&ev, "!room:x".to_string()).is_some());

    let state = SyncEvent {
        event_id: "$s".to_string(),
        sender: "@a:x".to_string(),
        origin_server_ts: 1,
        content: SyncEventContent::RoomCreate,
    };
    assert!(sync_event_to_message(&state, "!room:x".to_string()).is_none());
}

#[test]
fn simplify_body_strips_reply_quote() {
    let formatted = "<mx-reply><blockquote>quoted</blockquote></mx-reply> the actual answer";
    let ev = message_event(
        MsgPayload::Text(TextContent {
            body: "> quoted\nthe actual answer".to_string(),
            formatted: Some(FormattedBody { html: true, body: formatted.to_string() }),
        }),
        None,
    );
    let mut msg = RoomMessage::from_original(&ev, "!room:x".to_string());
    msg.simplify_body();
    assert_eq!(msg.body().as_deref(), Some("the actual answer"));
    // the formatted body itself stays
    assert_eq!(msg.formatted_body().as_deref(), Some(formatted));
}

#[test]
fn simplify_body_strips_through_last_close_tag() {
    // a nested quote: everything through the last closing tag goes
    let formatted = "<mx-reply>a<mx-reply>b</mx-reply> c</mx-reply> final words";
    let ev = message_event(
        MsgPayload::Text(TextContent {
            body: "fallback".to_string(),
            formatted: Some(FormattedBody { html: true, body: formatted.to_string() }),
        }),
        None,
    );
    let mut msg = RoomMessage::from_original(&ev, "!room:x".to_string());
    msg.simplify_body();
    assert_eq!(msg.body().as_deref(), Some("final words"));
}

#[test]
fn simplify_body_without_quote_copies_formatted_text() {
    let ev = message_event(
        MsgPayload::Text(TextContent {
            body: "plain body".to_string(),
            formatted: Some(FormattedBody { html: true, body: "<b>rich</b>".to_string() }),
        }),
        None,
    );
    let mut msg = RoomMessage::from_original(&ev, "!room:x".to_string());
    msg.simplify_body();
    // no reply quote: the body becomes the formatted text unchanged
    assert_eq!(msg.body().as_deref(), Some("<b>rich</b>"));
}

#[test]
fn simplify_body_without_formatted_body_changes_nothing() {
    let ev = message_event(
        MsgPayload::Text(TextContent { body: "plain body".to_string(), formatted: None }),
        None,
    );
    let mut msg = RoomMessage::from_original(&ev, "!room:x".to_string());
    msg.simplify_body();
    assert_eq!(msg.body().as_deref(), Some("plain body"));
}

#[test]
fn set_body_replaces_only_the_body() {
    let mut content = RoomMessageContent {
        msgtype: "m.text".to_string(),
        body: "old".to_string(),
        formatted_body: Some("<b>old</b>".to_string()),
        image_description: None,
        file_description: None,
        replying: true,
    };
    content.set_body("new".to_string());
    assert_eq!(content.body, "new");
    assert_eq!(content.msgtype, "m.text");
    assert_eq!(content.formatted_body.as_deref(), Some("<b>old</b>"));
    assert!(content.replying);
}
