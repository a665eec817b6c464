use acter::content::{ContentDesc, FormattedBody, MediaInfo, MsgPayload, TextContent};
use acter::content::{ImageContent, LocationContent};
use acter::events::{
    EncryptionScheme, MemberContent, MembershipState, PowerLevelEntry, Relation, SyncEvent,
    SyncEventContent,
};
use acter::project::any_sync_event_to_message;
use acter::timeline::RoomMessage;

fn event(content: SyncEventContent) -> SyncEvent {
    SyncEvent {
        event_id: "$evt1".to_string(),
        sender: "@alice:example.org".to_string(),
        origin_server_ts: 1_700_000_000_000,
        content,
    }
}

fn member(
    membership: MembershipState,
    displayname: Option<&str>,
    avatar_url: Option<&str>,
    prev_displayname: Option<&str>,
    prev_avatar_url: Option<&str>,
) -> SyncEvent {
    event(SyncEventContent::RoomMember {
        content: MemberContent {
            membership,
            displayname: displayname.map(|s| s.to_string()),
            avatar_url: avatar_url.map(|s| s.to_string()),
            prev_displayname: prev_displayname.map(|s| s.to_string()),
            prev_avatar_url: prev_avatar_url.map(|s| s.to_string()),
        },
    })
}

fn fallback_text(msg: &RoomMessage) -> String {
    let item = msg.event_item().expect("event item");
    match item.content_desc().expect("content desc") {
        ContentDesc::Text { body, .. } => body,
        other => panic!("not a text descriptor: {other:?}"),
    }
}

fn msg_type(msg: &RoomMessage) -> Option<String> {
    msg.event_item().expect("event item").msg_type()
}

#[test]
fn membership_transitions_use_fixed_words() {
    let cases = [
        (MembershipState::Join, "Joined", "joined"),
        (MembershipState::Leave, "Left", "left"),
        (MembershipState::Ban, "Banned", "banned"),
        (MembershipState::Invite, "Invited", "invited"),
        (MembershipState::Knock, "Knocked", "knocked"),
    ];
    for (state, tag, line) in cases {
        let ev = member(state, None, None, None, None);
        let msg = RoomMessage::room_member_from_sync_event(&ev, "!room:example.org".to_string());
        assert_eq!(msg_type(&msg).as_deref(), Some(tag));
        assert_eq!(fallback_text(&msg), line);
        assert_eq!(msg.event_type(), "m.room.member");
    }
}

#[test]
fn profile_change_table_has_twelve_distinct_sentences() {
    // every case of the fixed lookup table, with one concrete profile
    let d = Some("Mia");
    let av = Some("mxc://avatar/new");
    let pd = Some("Old Mia");
    let pa = Some("mxc://avatar/old");
    let cases: [(Option<&str>, Option<&str>, Option<&str>, Option<&str>, &str); 12] = [
        (d, av, pa, pd, "Updated avatar & changed name to mxc://avatar/old -> Mia"),
        (d, av, None, pd, "Updated avatar & set name to Mia"),
        (d, None, pa, pd, "Changed name mxc://avatar/old -> Mia, removed avatar"),
        (d, None, None, pd, "Set name to Mia, removed avatar"),
        (d, None, pa, None, "Changed name mxc://avatar/old -> Mia"),
        (d, None, None, None, "Set name to Mia"),
        (None, av, None, pd, "Updated avatar"),
        (None, av, pa, pd, "Removed name, updated avatar"),
        (None, None, pa, pd, "Removed name and avatar"),
        (None, None, pa, None, "Removed name"),
        (None, None, None, pd, "Removed avatar"),
        (None, None, None, None, "Removed name"),
    ];
    let mut seen: Vec<String> = Vec::new();
    for (dn, avn, pav, pdn, expected) in cases {
        let ev = member(MembershipState::Other, dn, avn, pdn, pav);
        let msg = RoomMessage::room_member_from_sync_event(&ev, "!room:example.org".to_string());
        assert_eq!(msg_type(&msg).as_deref(), Some("ProfileChanged"));
        assert_eq!(fallback_text(&msg), expected);
        seen.push(fallback_text(&msg));
    }
    // the sentences of the distinct table rows are reproducible and,
    // apart from the two rows that both read "Removed name", distinct
    for i in 0..seen.len() {
        for j in (i + 1)..seen.len() {
            if (i, j) != (9, 11) {
                assert_ne!(seen[i], seen[j], "rows {i} and {j} collide");
            }
        }
    }
}

#[test]
fn text_message_gets_structured_descriptor_without_fallback() {
    let ev = event(SyncEventContent::RoomMessage {
        msgtype: MsgPayload::Text(TextContent {
            body: "hello there".to_string(),
            formatted: Some(FormattedBody {
                html: true,
                body: "<b>hello there</b>".to_string(),
            }),
        }),
        relates_to: None,
    });
    let msg = RoomMessage::room_message_from_sync_event(&ev, "!room:example.org".to_string(), false);
    let item = msg.event_item().unwrap();
    assert_eq!(item.msg_type().as_deref(), Some("m.text"));
    match item.content_desc().unwrap() {
        ContentDesc::Text { body, formatted_body } => {
            assert_eq!(body, "hello there");
            assert_eq!(formatted_body.as_deref(), Some("<b>hello there</b>"));
        }
        other => panic!("expected text descriptor, got {other:?}"),
    }
    assert!(!item.was_edited());
}

#[test]
fn image_with_metadata_gets_image_descriptor() {
    let ev = event(SyncEventContent::RoomMessage {
        msgtype: MsgPayload::Image(ImageContent {
            body: "cat.png".to_string(),
            source: Some("mxc://media/cat".to_string()),
            info: Some(MediaInfo {
                mimetype: Some("image/png".to_string()),
                size: Some(1024),
                width: Some(64),
                height: Some(48),
                blurhash: Some("LEHV6nWB2yk8".to_string()),
                duration: None,
            }),
        }),
        relates_to: None,
    });
    let msg = RoomMessage::room_message_from_sync_event(&ev, "!r:x".to_string(), false);
    match msg.event_item().unwrap().content_desc().unwrap() {
        ContentDesc::Image { name, mimetype, size, width, height, blurhash, .. } => {
            assert_eq!(name, "cat.png");
            assert_eq!(mimetype.as_deref(), Some("image/png"));
            assert_eq!(size, Some(1024));
            assert_eq!(width, Some(64));
            assert_eq!(height, Some(48));
            assert_eq!(blurhash.as_deref(), Some("LEHV6nWB2yk8"));
        }
        other => panic!("expected image descriptor, got {other:?}"),
    }
}

#[test]
fn image_without_metadata_falls_back_to_short_line() {
    let ev = event(SyncEventContent::RoomMessage {
        msgtype: MsgPayload::Image(ImageContent {
            body: "cat.png".to_string(),
            source: None,
            info: None,
        }),
        relates_to: None,
    });
    let msg = RoomMessage::room_message_from_sync_event(&ev, "!r:x".to_string(), false);
    assert_eq!(fallback_text(&msg), "sent an image.");
}

#[test]
fn location_message_keeps_geo_uri() {
    let ev = event(SyncEventContent::RoomMessage {
        msgtype: MsgPayload::Location(LocationContent {
            body: "our meeting point".to_string(),
            geo_uri: "geo:52.5,13.4".to_string(),
        }),
        relates_to: None,
    });
    let msg = RoomMessage::room_message_from_sync_event(&ev, "!r:x".to_string(), false);
    match msg.event_item().unwrap().content_desc().unwrap() {
        ContentDesc::Location { body, geo_uri } => {
            assert_eq!(body, "our meeting point");
            assert_eq!(geo_uri.as_deref(), Some("geo:52.5,13.4"));
        }
        other => panic!("expected location descriptor, got {other:?}"),
    }
}

#[test]
fn replacement_relation_marks_edited() {
    let ev = event(SyncEventContent::RoomMessage {
        msgtype: MsgPayload::Text(TextContent {
            body: "v2".to_string(),
            formatted: None,
        }),
        relates_to: Some(Relation::Replacement {
            event_id: "$orig".to_string(),
        }),
    });
    let msg = RoomMessage::room_message_from_sync_event(&ev, "!r:x".to_string(), false);
    assert!(msg.event_item().unwrap().was_edited());
}

#[test]
fn editability_needs_sender_and_editable_kind() {
    let text = |body: &str| MsgPayload::Text(TextContent {
        body: body.to_string(),
        formatted: None,
    });
    let ev = event(SyncEventContent::RoomMessage { msgtype: text("mine"), relates_to: None });
    let mine = RoomMessage::room_message_from_sync_event(&ev, "!r:x".to_string(), true);
    assert!(mine.event_item().unwrap().is_editable());
    let other = RoomMessage::room_message_from_sync_event(&ev, "!r:x".to_string(), false);
    assert!(!other.event_item().unwrap().is_editable());

    let img = event(SyncEventContent::RoomMessage {
        msgtype: MsgPayload::Image(ImageContent {
            body: "x.png".to_string(),
            source: None,
            info: None,
        }),
        relates_to: None,
    });
    let img_msg = RoomMessage::room_message_from_sync_event(&img, "!r:x".to_string(), true);
    assert!(!img_msg.event_item().unwrap().is_editable());
}

#[test]
fn state_events_carry_their_fixed_sentences() {
    let room = "!room:example.org";
    let topic = event(SyncEventContent::RoomTopic { topic: "All things tea".to_string() });
    let msg = RoomMessage::room_topic_from_sync_event(&topic, room.to_string());
    assert_eq!(fallback_text(&msg), "changed topic to All things tea");

    let name = event(SyncEventContent::RoomName { name: "Tea Lovers".to_string() });
    let msg = RoomMessage::room_name_from_sync_event(&name, room.to_string());
    assert_eq!(fallback_text(&msg), "changed name to Tea Lovers");

    let aliases = event(SyncEventContent::RoomAliases {
        aliases: vec!["#tea:example.org".to_string(), "#leaves:example.org".to_string()],
    });
    let msg = RoomMessage::room_aliases_from_sync_event(&aliases, room.to_string());
    assert_eq!(
        fallback_text(&msg),
        "changed room aliases to #tea:example.org, #leaves:example.org"
    );

    let pinned = event(SyncEventContent::RoomPinnedEvents { pinned_count: 3 });
    let msg = RoomMessage::room_pinned_events_from_sync_event(&pinned, room.to_string());
    assert_eq!(fallback_text(&msg), "pinned 3 events");

    let enc = event(SyncEventContent::RoomEncrypted {
        scheme: EncryptionScheme::MegolmV1AesSha2,
    });
    let msg = RoomMessage::room_encrypted_from_sync_event(&enc, room.to_string());
    assert_eq!(fallback_text(&msg), "encrypted by MegolmV1AesSha2");

    let redaction = event(SyncEventContent::RoomRedaction {
        reason: Some("spam".to_string()),
    });
    let msg = RoomMessage::room_redaction_from_sync_event(&redaction, room.to_string());
    assert_eq!(fallback_text(&msg), "deleted this item because spam");

    let redaction = event(SyncEventContent::RoomRedaction { reason: None });
    let msg = RoomMessage::room_redaction_from_sync_event(&redaction, room.to_string());
    assert_eq!(fallback_text(&msg), "deleted this item");
}

#[test]
fn power_levels_render_each_user() {
    let ev = event(SyncEventContent::RoomPowerLevels {
        users: vec![
            PowerLevelEntry { user_id: "@alice:x".to_string(), level: 100 },
            PowerLevelEntry { user_id: "@bob:x".to_string(), level: -1 },
        ],
    });
    let msg = RoomMessage::room_power_levels_from_sync_event(&ev, "!r:x".to_string());
    assert_eq!(
        fallback_text(&msg),
        "changed power level of @alice:x to 100, power level of @bob:x to -1"
    );
}

#[test]
fn power_levels_render_extreme_values() {
    let ev = event(SyncEventContent::RoomPowerLevels {
        users: vec![PowerLevelEntry {
            user_id: "@deep:x".to_string(),
            level: i64::MIN,
        }],
    });
    let msg = RoomMessage::room_power_levels_from_sync_event(&ev, "!r:x".to_string());
    assert_eq!(
        fallback_text(&msg),
        "changed power level of @deep:x to -9223372036854775808"
    );
}

#[test]
fn canonical_alias_renders_optional_alias() {
    let ev = event(SyncEventContent::RoomCanonicalAlias {
        alias: Some("#main:x".to_string()),
        alt_aliases: vec!["#alt:x".to_string()],
    });
    let msg = RoomMessage::room_canonical_alias_from_sync_event(&ev, "!r:x".to_string());
    assert_eq!(
        fallback_text(&msg),
        "changed canonical aliases (#alt:x) of room alias (Some(\"#main:x\"))"
    );

    let ev = event(SyncEventContent::RoomCanonicalAlias { alias: None, alt_aliases: vec![] });
    let msg = RoomMessage::room_canonical_alias_from_sync_event(&ev, "!r:x".to_string());
    assert_eq!(fallback_text(&msg), "changed canonical aliases () of room alias (None)");
}

#[test]
fn server_acl_wording_follows_emptiness_table() {
    let ev = event(SyncEventContent::RoomServerAcl {
        allow: vec![],
        deny: vec![],
    });
    let msg = RoomMessage::room_server_acl_from_sync_event(&ev, "!r:x".to_string());
    assert_eq!(fallback_text(&msg), "allowed , denied ");

    let ev = event(SyncEventContent::RoomServerAcl {
        allow: vec!["good.example".to_string()],
        deny: vec!["bad.example".to_string()],
    });
    let msg = RoomMessage::room_server_acl_from_sync_event(&ev, "!r:x".to_string());
    assert_eq!(fallback_text(&msg), "");
}

#[test]
fn dispatcher_covers_known_kinds_and_degrades_unknown() {
    let known = event(SyncEventContent::RoomCreate);
    let msg = any_sync_event_to_message(&known, "!r:x".to_string()).expect("projected");
    assert_eq!(msg.item_type(), "event");
    assert_eq!(msg.room_id(), "!r:x");
    assert_eq!(fallback_text(&msg), "created this room");
    let item = msg.event_item().unwrap();
    assert_eq!(item.sender(), "@alice:example.org");
    assert_eq!(item.origin_server_ts(), 1_700_000_000_000);
    assert_eq!(item.unique_id(), "$evt1");

    let unknown = event(SyncEventContent::Unknown {
        event_type: "org.example.custom".to_string(),
    });
    let msg = any_sync_event_to_message(&unknown, "!r:x".to_string())
        .expect("an unknown event still yields a feed row");
    assert_eq!(msg.event_type(), "org.example.custom");
    let item = msg.event_item().unwrap();
    assert_eq!(item.unique_id(), "$evt1");
    assert_eq!(item.sender(), "@alice:example.org");
    assert!(item.content_desc().is_none());
    assert!(item.msg_type().is_none());
    assert!(!item.was_edited());
    assert!(!item.is_editable());
}

#[test]
fn call_and_policy_events_project() {
    let hangup = event(SyncEventContent::CallHangup { reason: "ice_failed".to_string() });
    let msg = RoomMessage::call_hangup_from_sync_event(&hangup, "!r:x".to_string());
    assert_eq!(fallback_text(&msg), "hangup this call because ice_failed");

    let cands = event(SyncEventContent::CallCandidates {
        candidates: vec!["a".to_string(), "b".to_string()],
    });
    let msg = RoomMessage::call_candidates_from_sync_event(&cands, "!r:x".to_string());
    assert_eq!(fallback_text(&msg), "changed candidates to a, b");

    let rule = event(SyncEventContent::PolicyRuleRoom {
        recommendation: "m.ban".to_string(),
        entity: "!bad:x".to_string(),
        reason: "spam".to_string(),
    });
    let msg = RoomMessage::policy_rule_room_from_sync_event(&rule, "!r:x".to_string());
    assert_eq!(fallback_text(&msg), "recommended m.ban about !bad:x because spam");

    let reaction = event(SyncEventContent::Reaction { key: "\u{1f44d}".to_string() });
    let msg = RoomMessage::reaction_from_sync_event(&reaction, "!r:x".to_string());
    assert_eq!(fallback_text(&msg), "reacted by \u{1f44d}");
}
