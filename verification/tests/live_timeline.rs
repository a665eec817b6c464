use acter::content::{ContentDesc, MsgPayload, TextContent};
use acter::live::{
    FieldChange, MembershipChangeKind, MessageDetails, ProfileChangeModel, ReactionGroupModel,
    ReactionSenderModel, TimelineContentModel, TimelineEventModel, TimelineItemModel,
    VirtualItemModel,
};
use acter::timeline::{RoomMessage, SendState, UserReceipt};

fn text(body: &str) -> MsgPayload {
    MsgPayload::Text(TextContent { body: body.to_string(), formatted: None })
}

fn live_event(content: TimelineContentModel) -> TimelineEventModel {
    TimelineEventModel {
        is_local_echo: false,
        send_state: None,
        transaction_id: None,
        event_id: Some("$evt9".to_string()),
        sender: "@alice:example.org".to_string(),
        timestamp: 1_700_000_123_000,
        read_receipts: vec![],
        reactions: vec![],
        content,
    }
}

fn desc_body(msg: &RoomMessage) -> String {
    match msg.event_item().unwrap().content_desc().unwrap() {
        ContentDesc::Text { body, .. } => body,
        other => panic!("not a text descriptor: {other:?}"),
    }
}

#[test]
fn message_edit_replaces_descriptor_and_marks_edited() {
    // a text message sent, then edited by its sender: the live projection
    // shows the latest edit's text, the edited flag, and stays editable
    let ev = live_event(TimelineContentModel::Message(MessageDetails {
        msgtype: text("Hi, everyone"),
        in_reply_to: None,
        is_edited: true,
        latest_edit: Some(text("This is message edition")),
    }));
    let me = "@alice:example.org".to_string();
    let msg = RoomMessage::from_timeline_event_item(&ev, "!room:x".to_string(), Some(&me));
    let item = msg.event_item().unwrap();
    assert_eq!(desc_body(&msg), "This is message edition");
    assert!(item.was_edited());
    assert!(item.is_editable());

    // a different viewer cannot edit it
    let other = "@bob:example.org".to_string();
    let msg = RoomMessage::from_timeline_event_item(&ev, "!room:x".to_string(), Some(&other));
    assert!(!msg.event_item().unwrap().is_editable());
}

#[test]
fn degraded_records_project_to_minimal_items() {
    let kinds = [
        (TimelineContentModel::RedactedMessage, "m.room.redaction"),
        (TimelineContentModel::UnableToDecrypt, "m.room.encrypted"),
        (
            TimelineContentModel::FailedToParseMessageLike {
                event_type: "m.broken".to_string(),
            },
            "m.broken",
        ),
        (
            TimelineContentModel::FailedToParseState {
                event_type: "m.broken.state".to_string(),
            },
            "m.broken.state",
        ),
        (
            TimelineContentModel::OtherState { event_type: "m.room.server_acl".to_string() },
            "m.room.server_acl",
        ),
    ];
    for (content, expected_type) in kinds {
        let ev = live_event(content);
        let msg = RoomMessage::from_timeline_event_item(&ev, "!room:x".to_string(), None);
        let item = msg.event_item().expect("projection is total");
        assert_eq!(item.event_type(), expected_type);
        assert_eq!(item.sender(), "@alice:example.org");
        assert_eq!(item.origin_server_ts(), 1_700_000_123_000);
        assert!(item.content_desc().is_none());
        assert!(item.msg_type().is_none());
    }
}

#[test]
fn receipts_and_reactions_are_snapshotted() {
    let mut ev = live_event(TimelineContentModel::Message(MessageDetails {
        msgtype: text("hi"),
        in_reply_to: Some("$parent".to_string()),
        is_edited: false,
        latest_edit: None,
    }));
    ev.read_receipts = vec![
        UserReceipt { seen_by: "@bob:x".to_string(), ts: Some(12) },
        UserReceipt { seen_by: "@carol:x".to_string(), ts: None },
    ];
    ev.reactions = vec![ReactionGroupModel {
        key: "\u{1f389}".to_string(),
        senders: vec![
            ReactionSenderModel { sender_id: "@alice:example.org".to_string(), timestamp: 5 },
            ReactionSenderModel { sender_id: "@bob:x".to_string(), timestamp: 6 },
        ],
    }];
    let me = "@alice:example.org".to_string();
    let msg = RoomMessage::from_timeline_event_item(&ev, "!room:x".to_string(), Some(&me));
    let item = msg.event_item().unwrap();
    assert_eq!(item.read_users(), vec!["@bob:x".to_string(), "@carol:x".to_string()]);
    assert_eq!(item.receipt_ts("@bob:x".to_string()), Some(12));
    assert_eq!(item.receipt_ts("@carol:x".to_string()), None);
    assert_eq!(item.reaction_keys(), vec!["\u{1f389}".to_string()]);
    let records = item.reaction_records("\u{1f389}".to_string()).unwrap();
    assert_eq!(records.len(), 2);
    assert_eq!(records[0].sender_id(), "@alice:example.org");
    assert!(records[0].sent_by_me());
    assert!(!records[1].sent_by_me());
    assert_eq!(item.in_reply_to().as_deref(), Some("$parent"));
}

#[test]
fn local_echo_identity_follows_send_state() {
    let mut ev = live_event(TimelineContentModel::Message(MessageDetails {
        msgtype: text("draft"),
        in_reply_to: None,
        is_edited: false,
        latest_edit: None,
    }));
    ev.is_local_echo = true;
    ev.transaction_id = Some("txn-7".to_string());
    ev.event_id = None;
    ev.send_state = Some(SendState::NotSentYet);
    let msg = RoomMessage::from_timeline_event_item(&ev, "!room:x".to_string(), None);
    let item = msg.event_item().unwrap();
    assert_eq!(item.unique_id(), "txn-7");
    let state = item.send_state().expect("local echo keeps its send state");
    assert_eq!(state.state(), "NotSentYet");
    assert!(state.event_id().is_none());

    ev.send_state = Some(SendState::Sent { event_id: "$acked".to_string() });
    let msg = RoomMessage::from_timeline_event_item(&ev, "!room:x".to_string(), None);
    let item = msg.event_item().unwrap();
    assert_eq!(item.unique_id(), "$acked");
    let state = item.send_state().unwrap();
    assert_eq!(state.state(), "Sent");
    assert_eq!(state.event_id().as_deref(), Some("$acked"));
}

#[test]
fn live_membership_changes_use_fixed_words() {
    let cases = [
        (MembershipChangeKind::Joined, "Joined", "joined"),
        (MembershipChangeKind::Kicked, "Kicked", "kicked"),
        (MembershipChangeKind::KickedAndBanned, "KickedAndBanned", "kicked and banned"),
        (MembershipChangeKind::Unbanned, "Unbanned", "unbanned"),
        (MembershipChangeKind::InvitationAccepted, "InvitationAccepted", "accepted invitation"),
        (MembershipChangeKind::InvitationRejected, "InvitationRejected", "rejected invitation"),
        (MembershipChangeKind::Left, "Left", "left"),
    ];
    for (kind, tag, line) in cases {
        let ev = live_event(TimelineContentModel::MembershipChange { change: Some(kind) });
        let msg = RoomMessage::from_timeline_event_item(&ev, "!room:x".to_string(), None);
        let item = msg.event_item().unwrap();
        assert_eq!(item.msg_type().as_deref(), Some(tag));
        assert_eq!(desc_body(&msg), line);
    }
    let ev = live_event(TimelineContentModel::MembershipChange { change: None });
    let msg = RoomMessage::from_timeline_event_item(&ev, "!room:x".to_string(), None);
    assert!(msg.event_item().unwrap().msg_type().is_none());
    assert_eq!(desc_body(&msg), "unknown error");
}

#[test]
fn live_profile_change_prefers_new_avatar_picture() {
    let ev = live_event(TimelineContentModel::ProfileChange(ProfileChangeModel {
        displayname_change: Some(FieldChange {
            old: Some("Old".to_string()),
            new: Some("New".to_string()),
        }),
        avatar_url_change: Some(FieldChange {
            old: None,
            new: Some("mxc://avatar/1".to_string()),
        }),
    }));
    let msg = RoomMessage::from_timeline_event_item(&ev, "!room:x".to_string(), None);
    let item = msg.event_item().unwrap();
    assert_eq!(item.msg_type().as_deref(), Some("ProfileChange"));
    match item.content_desc().unwrap() {
        ContentDesc::Image { name, source, .. } => {
            assert_eq!(name, "new_picture");
            assert_eq!(source.as_deref(), Some("mxc://avatar/1"));
        }
        other => panic!("expected image descriptor, got {other:?}"),
    }

    let ev = live_event(TimelineContentModel::ProfileChange(ProfileChangeModel {
        displayname_change: Some(FieldChange {
            old: Some("Old".to_string()),
            new: Some("New".to_string()),
        }),
        avatar_url_change: None,
    }));
    let msg = RoomMessage::from_timeline_event_item(&ev, "!room:x".to_string(), None);
    assert_eq!(desc_body(&msg), "changed name Old -> New");
}

#[test]
fn day_divider_carries_iso_date() {
    // the Unix epoch falls on 1970-01-01
    let ev = VirtualItemModel::DayDivider { ts_ms: 0 };
    let msg = RoomMessage::from_timeline_virtual_item(&ev, "!room:x".to_string());
    assert_eq!(msg.item_type(), "virtual");
    let v = msg.virtual_item().unwrap();
    assert_eq!(v.event_type(), "DayDivider");
    assert_eq!(v.desc().as_deref(), Some("1970-01-01"));

    // a later timestamp: 2023-11-14T22:13:20Z
    let ev = VirtualItemModel::DayDivider { ts_ms: 1_700_000_000_000 };
    let msg = RoomMessage::from_timeline_virtual_item(&ev, "!room:x".to_string());
    assert_eq!(msg.virtual_item().unwrap().desc().as_deref(), Some("2023-11-14"));

    let ev = VirtualItemModel::ReadMarker;
    let msg = RoomMessage::from_timeline_virtual_item(&ev, "!room:x".to_string());
    let v = msg.virtual_item().unwrap();
    assert_eq!(v.event_type(), "ReadMarker");
    assert!(v.desc().is_none());
    assert_eq!(msg.event_type(), "virtual");
}

#[test]
fn timeline_item_dispatch_covers_both_shapes() {
    let ev = live_event(TimelineContentModel::Message(MessageDetails {
        msgtype: text("hello"),
        in_reply_to: None,
        is_edited: false,
        latest_edit: None,
    }));
    let item = TimelineItemModel::Event(ev);
    let msg = RoomMessage::from_timeline_item(&item, "!room:x".to_string(), None);
    assert_eq!(msg.item_type(), "event");

    let item = TimelineItemModel::Virtual(VirtualItemModel::ReadMarker);
    let msg = RoomMessage::from_timeline_item(&item, "!room:x".to_string(), None);
    assert_eq!(msg.item_type(), "virtual");
}

#[test]
fn poll_records_keep_their_fallback_text() {
    let ev = live_event(TimelineContentModel::Poll {
        fallback_text: Some("What flavour?".to_string()),
    });
    let msg = RoomMessage::from_timeline_event_item(&ev, "!room:x".to_string(), None);
    let item = msg.event_item().unwrap();
    assert_eq!(item.event_type(), "m.poll.start");
    assert_eq!(desc_body(&msg), "What flavour?");

    let ev = live_event(TimelineContentModel::Poll { fallback_text: None });
    let msg = RoomMessage::from_timeline_event_item(&ev, "!room:x".to_string(), None);
    assert!(msg.event_item().unwrap().content_desc().is_none());
}
