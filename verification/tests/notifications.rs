use acter::content::{ContentDesc, MsgPayload, TextContent};
use acter::news::NewsContent;
use acter::content::ImageContent;
use acter::objects::{
    ActerEvent, AnyObject, CalendarDate, NotificationEventModel, RsvpStatus,
    TransportNotification, UtcDateTime,
};
use acter::notify::{NotificationItem, NotificationItemParent, NotificationRoom};
use acter::objects::parent_id_for;

fn payload(event: NotificationEventModel) -> TransportNotification {
    TransportNotification {
        sender_id: "@sisko:example.org".to_string(),
        sender_display_name: Some("Sisko".to_string()),
        sender_avatar_url: None,
        room_display_name: "Ops".to_string(),
        room_avatar_url: Some("mxc://room/avatar".to_string()),
        is_noisy: Some(true),
        is_direct_message_room: false,
        event,
    }
}

fn classify(event: NotificationEventModel, parent: Option<AnyObject>) -> NotificationItem {
    NotificationItem::from(
        "DEVICE1".to_string(),
        "!ops:example.org".to_string(),
        payload(event),
        parent,
    )
}

#[test]
fn task_due_date_change_titles_with_iso_date() {
    // a task's due date set to 2026-01-01
    let event = NotificationEventModel::Acter(ActerEvent::TaskUpdate {
        event_id: "$update".to_string(),
        room_id: "!ops:example.org".to_string(),
        task_id: "$task1".to_string(),
        title: None,
        description: None,
        due_date: Some(Some(CalendarDate { year: 2026, month: 1, day: 1 })),
        progress_percent: None,
    });
    let parent = AnyObject::Task {
        event_id: "$task1".to_string(),
        task_list_id: "$list1".to_string(),
        title: "Water the plants".to_string(),
    };
    let item = classify(event, Some(parent));
    assert_eq!(item.push_style(), "taskDueDateChange");
    assert_eq!(item.title(), "2026-01-01");
    assert_eq!(item.target_url(), "/tasks/$list1/$task1");
}

#[test]
fn cleared_due_date_titles_with_fixed_line() {
    let event = NotificationEventModel::Acter(ActerEvent::TaskUpdate {
        event_id: "$update".to_string(),
        room_id: "!ops:example.org".to_string(),
        task_id: "$task1".to_string(),
        title: None,
        description: None,
        due_date: Some(None),
        progress_percent: None,
    });
    let item = classify(event, None);
    assert_eq!(item.push_style(), "taskDueDateChange");
    assert_eq!(item.title(), "removed due date");
}

#[test]
fn early_year_due_date_is_zero_padded() {
    let event = NotificationEventModel::Acter(ActerEvent::TaskUpdate {
        event_id: "$update".to_string(),
        room_id: "!ops:example.org".to_string(),
        task_id: "$task1".to_string(),
        title: None,
        description: None,
        due_date: Some(Some(CalendarDate { year: 987, month: 3, day: 5 })),
        progress_percent: None,
    });
    let item = classify(event, None);
    assert_eq!(item.push_style(), "taskDueDateChange");
    assert_eq!(item.title(), "0987-03-05");
}

#[test]
fn reaction_on_resolved_pin_links_into_reactions_section() {
    // a reaction referencing an object whose parent resolves to a pin
    let event = NotificationEventModel::Acter(ActerEvent::Reaction {
        event_id: "$reaction9".to_string(),
        room_id: "!ops:example.org".to_string(),
        relates_to_id: "$pin5".to_string(),
        key: "\u{1f44d}".to_string(),
    });
    let parent = AnyObject::Pin {
        event_id: "$pin5".to_string(),
        title: "Roadmap".to_string(),
    };
    let item = classify(event, Some(parent));
    assert_eq!(item.push_style(), "reaction");
    assert_eq!(item.target_url(), "/pins/$pin5?section=reactions&reactionId=%24reaction9");
    assert_eq!(item.inner.reaction_key().as_deref(), Some("\u{1f44d}"));
    let p = item.inner.parent().expect("parent resolved");
    assert_eq!(p.object_type_str(), "pin");
    assert_eq!(p.title().as_deref(), Some("Roadmap"));
}

#[test]
fn redacted_object_without_store_entry_still_classifies() {
    // the task list was redacted, the store can no longer resolve it
    let event = NotificationEventModel::Acter(ActerEvent::RedactObject {
        event_id: "$redaction3".to_string(),
        room_id: "!ops:example.org".to_string(),
        object_id: "$list1".to_string(),
    });
    let item = classify(event, None);
    assert_eq!(item.push_style(), "redaction");
    assert_eq!(
        item.target_url(),
        "/forward?eventId=%24redaction3&roomId=%21ops%3Aexample.org&parentId=%24list1"
    );
    assert!(item.inner.parent().is_none());
}

#[test]
fn update_with_several_fields_keeps_only_the_highest() {
    // title, description, due date and progress all set at once: the
    // title wins and everything else is ignored
    let event = NotificationEventModel::Acter(ActerEvent::TaskUpdate {
        event_id: "$update".to_string(),
        room_id: "!ops:example.org".to_string(),
        task_id: "$task1".to_string(),
        title: Some("Renamed Task".to_string()),
        description: Some(Some(TextContent {
            body: "details".to_string(),
            formatted: None,
        })),
        due_date: Some(Some(CalendarDate { year: 2026, month: 1, day: 1 })),
        progress_percent: Some(Some(100)),
    });
    let item = classify(event, None);
    assert_eq!(item.push_style(), "titleChange");
    assert_eq!(item.title(), "Renamed Task");

    // without the title, the description wins over the dates
    let event = NotificationEventModel::Acter(ActerEvent::TaskUpdate {
        event_id: "$update".to_string(),
        room_id: "!ops:example.org".to_string(),
        task_id: "$task1".to_string(),
        title: None,
        description: Some(Some(TextContent {
            body: "details".to_string(),
            formatted: None,
        })),
        due_date: Some(Some(CalendarDate { year: 2026, month: 1, day: 1 })),
        progress_percent: Some(Some(100)),
    });
    let item = classify(event, None);
    assert_eq!(item.push_style(), "descriptionChange");
}

#[test]
fn task_progress_is_done_at_one_hundred_percent() {
    let update = |pct: Option<u8>| NotificationEventModel::Acter(ActerEvent::TaskUpdate {
        event_id: "$update".to_string(),
        room_id: "!ops:example.org".to_string(),
        task_id: "$task1".to_string(),
        title: None,
        description: None,
        due_date: None,
        progress_percent: Some(pct),
    });
    assert_eq!(classify(update(Some(100)), None).push_style(), "taskComplete");
    assert_eq!(classify(update(Some(40)), None).push_style(), "taskReOpen");
    assert_eq!(classify(update(None), None).push_style(), "taskReOpen");
}

#[test]
fn tasklist_creation_carries_its_own_name() {
    let event = NotificationEventModel::Acter(ActerEvent::TaskList {
        event_id: "$list1".to_string(),
        room_id: "!ops:example.org".to_string(),
        name: "Babies first task list".to_string(),
    });
    let item = classify(event, None);
    assert_eq!(item.push_style(), "creation");
    assert_eq!(item.title(), "Babies first task list");
    assert_eq!(item.target_url(), "/tasks/$list1");
    let p = item.inner.parent().unwrap();
    assert_eq!(p.object_type_str(), "task-list");
}

#[test]
fn task_creation_is_task_add_with_list_parent() {
    let event = NotificationEventModel::Acter(ActerEvent::Task {
        event_id: "$task1".to_string(),
        room_id: "!ops:example.org".to_string(),
        task_list_id: "$list1".to_string(),
        title: "Baby's first task".to_string(),
    });
    assert_eq!(
        parent_id_for(&event).as_deref(),
        Some("$list1"),
        "a new task resolves its owning list"
    );
    let parent = AnyObject::TaskList {
        event_id: "$list1".to_string(),
        name: "Onboarding list".to_string(),
    };
    let item = classify(event, Some(parent));
    assert_eq!(item.push_style(), "taskAdd");
    assert_eq!(item.title(), "Baby's first task");
    assert_eq!(item.target_url(), "/tasks/$list1/$task1");
}

#[test]
fn invite_and_chat_and_fallback_styles() {
    let item = classify(NotificationEventModel::Invite, None);
    assert_eq!(item.push_style(), "invite");
    assert_eq!(item.target_url(), "/activities/invites");
    assert_eq!(item.room_invite_str().as_deref(), Some("!ops:example.org"));
    assert_eq!(item.title(), "Ops");

    let chat = NotificationEventModel::ChatMessage {
        msgtype: MsgPayload::Text(TextContent {
            body: "anything on your mind?".to_string(),
            formatted: None,
        }),
    };
    let item = classify(chat, None);
    assert_eq!(item.push_style(), "chat");
    assert_eq!(item.target_url(), "/chat/!ops:example.org");
    match item.inner.body().expect("chat body") {
        ContentDesc::Text { body, .. } => assert_eq!(body, "anything on your mind?"),
        other => panic!("expected text body, got {other:?}"),
    }

    let mut dm = payload(NotificationEventModel::ChatMessage {
        msgtype: MsgPayload::Text(TextContent { body: "hey".to_string(), formatted: None }),
    });
    dm.is_direct_message_room = true;
    let item = NotificationItem::from(
        "DEVICE1".to_string(),
        "!dm:example.org".to_string(),
        dm,
        None,
    );
    assert_eq!(item.push_style(), "dm");

    let item = classify(NotificationEventModel::Other, None);
    assert_eq!(item.push_style(), "fallback");
    assert_eq!(
        item.target_url(),
        "/forward?deviceId=DEVICE1&roomId=%21ops%3Aexample.org"
    );
}

#[test]
fn comment_links_into_comments_section_of_parent() {
    let event = NotificationEventModel::Acter(ActerEvent::Comment {
        event_id: "$comment1".to_string(),
        room_id: "!ops:example.org".to_string(),
        on_id: "$news1".to_string(),
        content: TextContent {
            body: "I think this is very important".to_string(),
            formatted: None,
        },
    });
    let parent = AnyObject::NewsEntry { event_id: "$news1".to_string() };
    let item = classify(event, Some(parent));
    assert_eq!(item.push_style(), "comment");
    assert_eq!(item.target_url(), "/updates/$news1?section=comments&commentId=%24comment1");
    match item.inner.body().unwrap() {
        ContentDesc::Text { body, .. } => assert_eq!(body, "I think this is very important"),
        other => panic!("expected text body, got {other:?}"),
    }
}

#[test]
fn title_update_overrides_notification_title() {
    let event = NotificationEventModel::Acter(ActerEvent::TaskListUpdate {
        event_id: "$update7".to_string(),
        room_id: "!ops:example.org".to_string(),
        task_list_id: "$list1".to_string(),
        name: Some("Renamed Tasklist".to_string()),
        description: None,
    });
    let parent = AnyObject::TaskList {
        event_id: "$list1".to_string(),
        name: "Renamed Tasklist".to_string(),
    };
    let item = classify(event, Some(parent));
    assert_eq!(item.push_style(), "titleChange");
    assert_eq!(item.title(), "Renamed Tasklist");
    assert_eq!(item.target_url(), "/tasks/$list1");
    assert_eq!(item.inner.parent_id_str().as_deref(), Some("$list1"));
}

#[test]
fn description_cleared_still_counts_as_description_change() {
    let event = NotificationEventModel::Acter(ActerEvent::PinUpdate {
        event_id: "$update8".to_string(),
        room_id: "!ops:example.org".to_string(),
        pin_id: "$pin5".to_string(),
        title: None,
        content: Some(None),
    });
    let item = classify(event, None);
    assert_eq!(item.push_style(), "descriptionChange");
    assert!(item.inner.body().is_none(), "a cleared description carries no body");
}

#[test]
fn calendar_update_prefers_start_over_end_date() {
    let start = UtcDateTime {
        date: CalendarDate { year: 2026, month: 3, day: 14 },
        secs_of_day: 3600,
    };
    let end = UtcDateTime {
        date: CalendarDate { year: 2026, month: 3, day: 15 },
        secs_of_day: 0,
    };
    let event = NotificationEventModel::Acter(ActerEvent::CalendarEventUpdate {
        event_id: "$update9".to_string(),
        room_id: "!ops:example.org".to_string(),
        calendar_event_id: "$cal1".to_string(),
        title: None,
        description: None,
        utc_start: Some(start),
        utc_end: Some(end),
    });
    let item = classify(event, None);
    assert_eq!(item.push_style(), "eventDateChange");
    assert_eq!(item.inner.new_date(), Some(start));
}

#[test]
fn rsvp_styles_follow_status() {
    let rsvp = |status: RsvpStatus| NotificationEventModel::Acter(ActerEvent::Rsvp {
        event_id: "$rsvp1".to_string(),
        room_id: "!ops:example.org".to_string(),
        to_id: "$cal1".to_string(),
        status,
    });
    assert_eq!(classify(rsvp(RsvpStatus::Yes), None).push_style(), "rsvpYes");
    assert_eq!(classify(rsvp(RsvpStatus::Maybe), None).push_style(), "rsvpMaybe");
    assert_eq!(classify(rsvp(RsvpStatus::No), None).push_style(), "rsvpNo");
}

#[test]
fn boost_carries_first_slide_and_image_source() {
    let event = NotificationEventModel::Acter(ActerEvent::NewsEntry {
        event_id: "$news1".to_string(),
        room_id: "!ops:example.org".to_string(),
        first_slide: Some(NewsContent::Image(ImageContent {
            body: "KingFisher".to_string(),
            source: Some("mxc://media/kingfisher".to_string()),
            info: None,
        })),
    });
    let item = classify(event, None);
    assert_eq!(item.push_style(), "news");
    assert_eq!(item.target_url(), "/updates/$news1");
    assert!(item.has_image());
    assert_eq!(item.inner.image_source().as_deref(), Some("mxc://media/kingfisher"));
    assert!(item.inner.body().is_none(), "an image slide has no text body");
}

#[test]
fn baseline_presentation_comes_from_transport() {
    let item = classify(NotificationEventModel::Other, None);
    assert_eq!(item.sender().user_id(), "@sisko:example.org");
    assert_eq!(item.sender().display_name().as_deref(), Some("Sisko"));
    assert!(!item.sender().has_image());
    assert_eq!(item.room().room_id(), "!ops:example.org");
    assert_eq!(item.room().display_name(), "Ops");
    assert!(item.room().has_image());
    assert!(item.noisy());
    assert_eq!(item.thread_id().as_deref(), Some("!ops:example.org"));
    assert_eq!(item.icon_url().as_deref(), Some("mxc://room/avatar"));
}

#[test]
fn parent_descriptors_expose_kind_emoji_and_path() {
    let task = NotificationItemParent::Task {
        tl_id: "$list1".to_string(),
        parent_id: "$task1".to_string(),
        title: "Water the plants".to_string(),
    };
    assert_eq!(task.object_type_str(), "task");
    assert_eq!(task.object_id_str(), "$task1");
    assert_eq!(task.target_url(), "/tasks/$list1/$task1");
    assert_eq!(task.emoji(), "\u{2611}\u{fe0f}");

    let news = NotificationItemParent::News { parent_id: "$news1".to_string() };
    assert!(news.title().is_none());
    assert_eq!(news.emoji(), "\u{1f680}");
    assert_eq!(news.target_url(), "/updates/$news1");

    let unsupported = AnyObject::Unsupported;
    assert!(NotificationItemParent::try_from(&unsupported).is_err());
}

#[test]
fn fallback_constructor_needs_a_room() {
    let room = NotificationRoom {
        room_id: "!ops:example.org".to_string(),
        display_name: "Ops".to_string(),
        image: None,
    };
    let item = NotificationItem::fallback(
        "DEVICE1".to_string(),
        "!ops:example.org".to_string(),
        Some(room),
    )
    .expect("room known");
    assert_eq!(item.title(), "New messages");
    assert_eq!(item.push_style(), "fallback");
    assert_eq!(item.sender().user_id(), "");

    let missing = NotificationItem::fallback(
        "DEVICE1".to_string(),
        "!ops:example.org".to_string(),
        None,
    );
    assert!(missing.is_err(), "without a room the fallback cannot be built");
}

#[test]
fn percent_encoding_escapes_reserved_characters() {
    // would fail if the encoder handed its input back unchanged
    let encoded = acter::text::url_encode("a b/c:d");
    assert_eq!(encoded, "a%20b%2Fc%3Ad");
    assert_eq!(acter::text::url_encode("plain-safe_chars.only~"), "plain-safe_chars.only~");
    assert_eq!(acter::text::url_encode(""), "");
}

#[test]
fn calendar_date_wrapper_matches_known_dates() {
    // would fail if the wrapper ignored its argument
    assert_eq!(acter::text::civil_date_from_ms(0), (1970, 1, 1));
    assert_eq!(acter::text::civil_date_from_ms(1_700_000_000_000), (2023, 11, 14));
    // leap day
    assert_eq!(acter::text::civil_date_from_ms(951_782_400_000), (2000, 2, 29));
}
