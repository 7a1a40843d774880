use recent_messages2::db::StoredMessage;
use recent_messages2::irc::{ClearAction, IrcMessage, MessageKind, ReadLine, Tag};
use recent_messages2::message_export::{export_stored_messages, MessageContainer};
use recent_messages2::web::get_recent_messages::GetRecentMessagesQueryOptions;

fn stored(time_received: i64, source: &str) -> StoredMessage {
    StoredMessage { time_received, message_source: source.to_owned() }
}

fn privmsg(id: &str, user_id: &str, text: &str) -> String {
    format!(
        "@badge-info=;badges=;color=#19E6E6;display-name=alice;emotes=;flags=;id={};mod=0;room-id=11148817;subscriber=0;tmi-sent-ts=1700000000000;turbo=0;user-id={};user-type= :alice!alice@alice.tmi.twitch.tv PRIVMSG #chan :{}",
        id, user_id, text
    )
}

fn usernotice(id: &str, user_id: &str) -> String {
    format!(
        "@badge-info=;badges=;color=;display-name=bob;emotes=;flags=;id={};login=bob;mod=0;msg-id=rewardgift;room-id=11148817;subscriber=0;system-msg=reward;tmi-sent-ts=1700000000000;user-id={};user-type= :tmi.twitch.tv USERNOTICE #chan :hi",
        id, user_id
    )
}

fn options() -> GetRecentMessagesQueryOptions {
    GetRecentMessagesQueryOptions::default()
}

const TIMEOUT: &str = "@ban-duration=302;room-id=11148817;target-user-id=42;tmi-sent-ts=1700000000300 :tmi.twitch.tv CLEARCHAT #chan :alice";
const BAN: &str = "@room-id=11148817;target-user-id=42;tmi-sent-ts=1700000000300 :tmi.twitch.tv CLEARCHAT #chan :alice";
const CHAT_CLEARED: &str = "@room-id=11148817;tmi-sent-ts=1700000000300 :tmi.twitch.tv CLEARCHAT #chan";
const ROOMSTATE: &str = "@emote-only=0;followers-only=-1;r9k=0;rituals=0;room-id=11148817;slow=0;subs-only=0 :tmi.twitch.tv ROOMSTATE #chan";

#[test]
fn replay_adds_historical_and_received_tags() {
    let lines = export_stored_messages(
        vec![stored(1700000000000, &privmsg("abc", "42", "hello"))],
        options(),
    );
    assert_eq!(lines.len(), 1);
    assert_eq!(
        lines[0],
        "@badge-info=;badges=;color=#19E6E6;display-name=alice;emotes=;flags=;historical=1;id=abc;mod=0;rm-received-ts=1700000000000;room-id=11148817;subscriber=0;tmi-sent-ts=1700000000000;turbo=0;user-id=42;user-type= :alice!alice@alice.tmi.twitch.tv PRIVMSG #chan hello"
    );
}

#[test]
fn a_line_that_already_holds_the_replay_tags_gets_them_anew() {
    let source = "@rm-received-ts=5;historical=0;id=abc :alice!alice@tmi PRIVMSG #chan :hello";
    let lines = export_stored_messages(vec![stored(1700000000000, source)], options());
    // The line lacks what a chat message must hold, so it is not read.
    assert!(lines.is_empty());
    let full = format!("@rm-received-ts=5;historical=0;rm-deleted=1;{}", &privmsg("abc", "42", "hello")[1..]);
    let lines = export_stored_messages(vec![stored(1700000000000, &full)], options());
    assert_eq!(lines.len(), 1);
    assert!(lines[0].contains(";historical=1;"));
    assert!(lines[0].contains(";rm-received-ts=1700000000000;"));
    assert!(lines[0].contains(";rm-deleted=1;"));
    assert!(lines[0].ends_with(" PRIVMSG #chan hello"));
}

#[test]
fn a_negative_time_of_receipt_is_written_with_its_sign() {
    let lines = export_stored_messages(vec![stored(-15, ROOMSTATE)], options());
    assert_eq!(lines.len(), 1);
    assert!(lines[0].contains(";rm-received-ts=-15;"));
}

#[test]
fn clearchat_for_a_user_marks_that_users_messages() {
    let messages = vec![
        stored(1, &privmsg("a", "42", "one")),
        stored(2, &privmsg("b", "42", "two")),
        stored(3, &privmsg("c", "7", "other user")),
        stored(4, &usernotice("d", "42")),
        stored(5, TIMEOUT),
        stored(6, &privmsg("e", "42", "after the timeout")),
    ];
    let lines = export_stored_messages(messages.clone(), options());
    assert_eq!(lines.len(), 6);
    assert!(lines[0].contains(";rm-deleted=1;"));
    assert!(lines[1].contains(";rm-deleted=1;"));
    assert!(!lines[2].contains("rm-deleted"));
    assert!(lines[3].contains(";rm-deleted=1;"));
    assert!(lines[4].contains(" CLEARCHAT #chan alice"));
    assert!(!lines[4].contains("rm-deleted"));
    assert!(!lines[5].contains("rm-deleted"));

    let hidden = export_stored_messages(
        messages.clone(),
        GetRecentMessagesQueryOptions { hide_moderated_messages: true, ..options() },
    );
    assert_eq!(hidden.len(), 3);
    assert!(hidden[0].contains("id=c;"));
    assert!(hidden[1].contains(" CLEARCHAT "));
    assert!(hidden[2].contains("id=e;"));

    let without_events = export_stored_messages(
        messages.clone(),
        GetRecentMessagesQueryOptions { hide_moderation_messages: true, ..options() },
    );
    assert_eq!(without_events.len(), 5);
    assert!(without_events.iter().all(|line| !line.contains(" CLEARCHAT ")));
    assert!(without_events[0].contains(";rm-deleted=1;"));

    let neither = export_stored_messages(
        messages,
        GetRecentMessagesQueryOptions {
            hide_moderation_messages: true,
            hide_moderated_messages: true,
            ..options()
        },
    );
    assert_eq!(neither.len(), 2);
}

#[test]
fn three_messages_of_a_timed_out_user_are_all_deleted() {
    let messages = vec![
        stored(1, &privmsg("a", "42", "one")),
        stored(2, &privmsg("b", "42", "two")),
        stored(3, &privmsg("c", "42", "three")),
        stored(4, TIMEOUT),
    ];
    let lines = export_stored_messages(messages.clone(), options());
    assert_eq!(lines.iter().filter(|l| l.contains(" PRIVMSG ") && l.contains(";rm-deleted=1;")).count(), 3);
    let hidden = export_stored_messages(
        messages,
        GetRecentMessagesQueryOptions { hide_moderated_messages: true, ..options() },
    );
    assert_eq!(hidden.iter().filter(|l| l.contains(" PRIVMSG ")).count(), 0);
}

#[test]
fn a_cleared_chat_marks_everything_before_it() {
    let lines = export_stored_messages(
        vec![
            stored(1, &privmsg("a", "42", "one")),
            stored(2, ROOMSTATE),
            stored(3, TIMEOUT),
            stored(4, CHAT_CLEARED),
            stored(5, &privmsg("b", "7", "two")),
        ],
        options(),
    );
    assert_eq!(lines.len(), 5);
    assert!(lines[0].contains(";rm-deleted=1;"));
    assert!(lines[1].contains(";rm-deleted=1;"));
    assert!(lines[2].contains(";rm-deleted=1;"));
    assert!(!lines[3].contains("rm-deleted"));
    assert!(!lines[4].contains("rm-deleted"));
}

#[test]
fn clearmsg_marks_the_message_with_its_id() {
    let clearmsg = "@login=alice;room-id=;target-msg-id=b;tmi-sent-ts=1700000000300 :tmi.twitch.tv CLEARMSG #chan :two";
    let messages = vec![
        stored(1, &privmsg("a", "42", "one")),
        stored(2, &privmsg("b", "42", "two")),
        stored(3, &usernotice("b", "9")),
        stored(4, clearmsg),
    ];
    let lines = export_stored_messages(messages.clone(), options());
    assert_eq!(lines.len(), 4);
    assert!(!lines[0].contains("rm-deleted"));
    assert!(lines[1].contains(";rm-deleted=1;"));
    assert!(lines[2].contains(";rm-deleted=1;"));
    assert!(lines[3].contains(" CLEARMSG #chan two"));
    let without = export_stored_messages(
        messages,
        GetRecentMessagesQueryOptions { hide_moderation_messages: true, ..options() },
    );
    assert_eq!(without.len(), 3);
}

#[test]
fn a_clearchat_becomes_a_notice_on_request() {
    let as_notice = GetRecentMessagesQueryOptions { clearchat_to_notice: true, ..options() };
    assert_eq!(
        export_stored_messages(vec![stored(5, TIMEOUT)], as_notice),
        vec!["@historical=1;msg-id=rm-timeout;rm-received-ts=5 :tmi.twitch.tv NOTICE #chan :alice has been timed out for 5m 2s.".to_owned()]
    );
    assert_eq!(
        export_stored_messages(vec![stored(6, BAN)], as_notice),
        vec!["@historical=1;msg-id=rm-permaban;rm-received-ts=6 :tmi.twitch.tv NOTICE #chan :alice has been permanently banned.".to_owned()]
    );
    assert_eq!(
        export_stored_messages(vec![stored(7, CHAT_CLEARED)], as_notice),
        vec!["@historical=1;msg-id=rm-clearchat;rm-received-ts=7 :tmi.twitch.tv NOTICE #chan :Chat has been cleared by a moderator.".to_owned()]
    );
    let deleted = export_stored_messages(vec![stored(7, TIMEOUT), stored(8, CHAT_CLEARED)], as_notice);
    assert_eq!(
        deleted[0],
        "@historical=1;msg-id=rm-timeout;rm-deleted=1;rm-received-ts=7 :tmi.twitch.tv NOTICE #chan :alice has been timed out for 5m 2s."
    );
    assert!(export_stored_messages(
        vec![stored(7, TIMEOUT)],
        GetRecentMessagesQueryOptions { hide_moderation_messages: true, ..as_notice },
    )
    .is_empty());
}

#[test]
fn only_six_kinds_of_message_are_replayed() {
    let lines = export_stored_messages(
        vec![
            stored(1, ":alice!alice@alice.tmi.twitch.tv JOIN #chan"),
            stored(2, ":alice!alice@alice.tmi.twitch.tv PART #chan"),
            stored(3, "PING :tmi.twitch.tv"),
            stored(4, "@badge-info=;badges=;color=;display-name=a;emote-sets=0;mod=0;subscriber=0;user-type= :tmi.twitch.tv USERSTATE #chan"),
            stored(5, ":tmi.twitch.tv RECONNECT"),
            stored(6, ROOMSTATE),
            stored(7, "@msg-id=slow_on :tmi.twitch.tv NOTICE #chan :This room is now in slow mode."),
        ],
        options(),
    );
    assert_eq!(lines.len(), 2);
    assert!(lines[0].contains(" ROOMSTATE #chan"));
    assert!(lines[1].contains(" NOTICE #chan "));
}

#[test]
fn some_notices_are_never_replayed() {
    for id in ["no_permission", "host_on", "host_off", "host_target_went_offline", "msg_channel_suspended"] {
        let source = format!("@msg-id={} :tmi.twitch.tv NOTICE #chan :text", id);
        assert!(export_stored_messages(vec![stored(1, &source)], options()).is_empty());
    }
    let kept = export_stored_messages(
        vec![
            stored(1, "@msg-id=host_on_ :tmi.twitch.tv NOTICE #chan :text"),
            stored(2, ":tmi.twitch.tv NOTICE #chan :text"),
        ],
        options(),
    );
    assert_eq!(kept.len(), 2);
}

#[test]
fn lines_that_cannot_be_read_are_left_out() {
    let lines = export_stored_messages(
        vec![
            stored(1, ""),
            stored(2, "@ :tmi.twitch.tv PRIVMSG #chan :x"),
            stored(3, "not a message \r\n"),
            stored(4, &privmsg("a", "42", "one")),
            stored(5, &privmsg("a", "42", "one").replace("emotes=;", "emotes=25:5-2;")),
            stored(6, &privmsg("a", "42", "one").replace("color=#19E6E6;", "color=\u{e9}12345;")),
            stored(7, &ROOMSTATE.replace("followers-only=-1", "followers-only=9999999999999999")),
        ],
        options(),
    );
    assert_eq!(lines.len(), 1);
    assert!(lines[0].contains(";rm-received-ts=4;"));
}

#[test]
fn emotes_are_kept_as_they_came() {
    let source = privmsg("a", "42", "Kappa Keepo Kappa").replace("emotes=;", "emotes=25:0-4,12-16/1902:6-10;");
    let lines = export_stored_messages(vec![stored(1, &source)], options());
    assert_eq!(lines.len(), 1);
    assert!(lines[0].contains(";emotes=25:0-4,12-16/1902:6-10;"));
    assert!(lines[0].ends_with(" PRIVMSG #chan :Kappa Keepo Kappa"));
}

#[test]
fn a_replay_of_a_replay_is_the_same() {
    let messages = vec![
        stored(1700000000001, &privmsg("a", "42", "one two")),
        stored(1700000000002, &usernotice("b", "42")),
        stored(1700000000003, ROOMSTATE),
        stored(1700000000004, TIMEOUT),
        stored(1700000000005, "@msg-id=slow_on :tmi.twitch.tv NOTICE #chan :This room is now in slow mode."),
    ];
    for options in [
        options(),
        GetRecentMessagesQueryOptions { hide_moderated_messages: true, ..options() },
        GetRecentMessagesQueryOptions { clearchat_to_notice: true, ..options() },
    ] {
        let first = export_stored_messages(messages.clone(), options);
        let second = export_stored_messages(messages.clone(), options);
        assert_eq!(first, second);
    }
    // What was written is read back and written to the same lines again.
    let plain = export_stored_messages(messages.clone(), options());
    let reread: Vec<StoredMessage> = plain
        .iter()
        .zip(messages.iter())
        .map(|(line, message)| stored(message.time_received, line))
        .collect();
    let mut again = export_stored_messages(reread, options());
    // The second pass finds the marks of the first one in the lines themselves.
    assert_eq!(again.len(), plain.len());
    assert_eq!(again.pop(), plain.last().cloned());
    assert_eq!(again[2], plain[2]);
    assert_eq!(again[3], plain[3]);
}

#[test]
fn a_container_takes_messages_one_by_one() {
    let mut container = MessageContainer::new(GetRecentMessagesQueryOptions {
        hide_moderated_messages: true,
        ..options()
    });
    container.append_stored_msg(&stored(1, &privmsg("a", "42", "one")));
    assert_eq!(container.frames.len(), 1);
    assert!(!container.frames[0].deleted_by_moderation);
    assert_eq!(container.frames[0].time_received, 1);
    container.append_stored_msg(&stored(2, "PING :tmi.twitch.tv"));
    assert_eq!(container.frames.len(), 1);
    container.append_stored_msg(&stored(3, BAN));
    assert_eq!(container.frames.len(), 2);
    assert!(container.frames[0].deleted_by_moderation);
    assert!(!container.frames[1].deleted_by_moderation);
    let lines = container.export();
    assert_eq!(lines.len(), 1);
    assert!(lines[0].contains(" CLEARCHAT #chan alice"));
}

#[test]
fn an_empty_store_gives_an_empty_replay() {
    assert!(export_stored_messages(vec![], options()).is_empty());
    assert!(MessageContainer::new(options()).export().is_empty());
}

fn chat(user_id: &str, id: &str, text: &str) -> ReadLine {
    ReadLine {
        message: IrcMessage {
            tags: vec![Tag { key: "id".to_owned(), value: Some(id.to_owned()) }],
            prefix: None,
            command: "PRIVMSG".to_owned(),
            params: vec!["#chan".to_owned(), text.to_owned()],
        },
        kind: MessageKind::Privmsg {
            channel_login: "chan".to_owned(),
            sender_id: user_id.to_owned(),
            message_id: id.to_owned(),
        },
    }
}

fn event(command: &str, kind: MessageKind) -> ReadLine {
    ReadLine {
        message: IrcMessage {
            tags: vec![],
            prefix: None,
            command: command.to_owned(),
            params: vec!["#chan".to_owned()],
        },
        kind,
    }
}

fn deleted(container: &MessageContainer) -> Vec<bool> {
    container.frames.iter().map(|frame| frame.deleted_by_moderation).collect()
}

#[test]
fn a_moderation_event_marks_what_it_deletes_and_nothing_else() {
    let mut container = MessageContainer::new(options());
    container.append_read(chat("42", "a", "one"), 1);
    container.append_read(chat("7", "b", "two"), 2);
    container.append_read(chat("42", "c", "three"), 3);
    assert_eq!(deleted(&container), vec![false, false, false]);

    let ban = MessageKind::ClearChat {
        channel_login: "chan".to_owned(),
        action: ClearAction::UserBanned { user_login: "alice".to_owned(), user_id: "42".to_owned() },
    };
    container.append_read(event("CLEARCHAT", ban), 4);
    assert_eq!(deleted(&container), vec![true, false, true, false]);

    let clearmsg =
        MessageKind::ClearMsg { channel_login: "chan".to_owned(), message_id: "b".to_owned() };
    container.append_read(event("CLEARMSG", clearmsg), 5);
    assert_eq!(deleted(&container), vec![true, true, true, false, false]);

    container.append_read(chat("42", "d", "four"), 6);
    container.append_read(event("JOIN", MessageKind::Join { channel_login: "chan".to_owned() }), 7);
    container.append_read(event("PING", MessageKind::Other), 8);
    let ignored = MessageKind::Notice {
        channel_login: Some("chan".to_owned()),
        message_id: Some("host_on".to_owned()),
    };
    container.append_read(event("NOTICE", ignored), 9);
    assert_eq!(deleted(&container), vec![true, true, true, false, false, false]);

    let timeout = MessageKind::ClearChat {
        channel_login: "chan".to_owned(),
        action: ClearAction::UserTimedOut {
            user_login: "bob".to_owned(),
            user_id: "7".to_owned(),
            timeout_secs: 600,
        },
    };
    container.append_read(event("CLEARCHAT", timeout), 10);
    assert_eq!(deleted(&container), vec![true, true, true, false, false, false, false]);

    let cleared = MessageKind::ClearChat {
        channel_login: "chan".to_owned(),
        action: ClearAction::ChatCleared,
    };
    container.append_read(event("CLEARCHAT", cleared), 11);
    assert_eq!(deleted(&container), vec![true, true, true, true, true, true, true, false]);

    let lines = container.export();
    assert_eq!(lines.len(), 8);
    assert_eq!(lines[0], "@historical=1;id=a;rm-deleted=1;rm-received-ts=1 PRIVMSG #chan one");
    assert_eq!(lines[7], "@historical=1;rm-received-ts=11 CLEARCHAT #chan");
}
