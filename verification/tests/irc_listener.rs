use recent_messages2::irc::read_line;
use recent_messages2::irc_listener::{
    channel_login, chunk_has_room, forward_message, forward_message_now, is_join_confirmed,
    join_part_step, plan_chunk, ChunkPlan, JoinPartStep,
};

const PRIVMSG: &str = "@badge-info=;badges=;color=;display-name=alice;emotes=;flags=;id=abc;mod=0;room-id=1;subscriber=0;tmi-sent-ts=1700000000000;turbo=0;user-id=42;user-type= :alice!alice@alice.tmi.twitch.tv PRIVMSG #chan :hello";

#[test]
fn messages_to_a_channel_are_forwarded_with_their_time_and_line() {
    let kind = read_line(PRIVMSG).unwrap().kind;
    let message = forward_message(&kind, PRIVMSG.to_owned(), 1700000000123).unwrap();
    assert_eq!(message.channel_login, "chan");
    assert_eq!(message.time_received, 1700000000123);
    assert_eq!(message.message_source, PRIVMSG);
}

#[test]
fn nine_kinds_of_message_have_a_channel() {
    let with_channel = [
        "@room-id=1;tmi-sent-ts=1594561392337 :tmi.twitch.tv CLEARCHAT #chan",
        "@login=a;room-id=;target-msg-id=3c;tmi-sent-ts=1594561955611 :tmi.twitch.tv CLEARMSG #chan :text",
        ":alice!alice@alice.tmi.twitch.tv JOIN #chan",
        "@msg-id=slow_on :tmi.twitch.tv NOTICE #chan :This room is now in slow mode.",
        ":alice!alice@alice.tmi.twitch.tv PART #chan",
        PRIVMSG,
        "@emote-only=1;room-id=1 :tmi.twitch.tv ROOMSTATE #chan",
        "@badge-info=;badges=;color=;display-name=bob;emotes=;flags=;id=d;login=bob;mod=0;msg-id=rewardgift;room-id=1;subscriber=0;system-msg=reward;tmi-sent-ts=1700000000000;user-id=7;user-type= :tmi.twitch.tv USERNOTICE #chan :hi",
        "@badge-info=;badges=;color=;display-name=a;emote-sets=0;mod=0;subscriber=0;user-type= :tmi.twitch.tv USERSTATE #chan",
    ];
    for source in with_channel {
        let line = read_line(source).unwrap();
        assert_eq!(channel_login(&line.kind).map(|s| s.as_str()), Some("chan"), "{}", source);
        assert!(forward_message(&line.kind, source.to_owned(), 5).is_some());
    }
    let without_channel = [
        ":tmi.twitch.tv NOTICE * :Improperly formatted auth",
        "PING :tmi.twitch.tv",
        ":tmi.twitch.tv PONG tmi.twitch.tv :x",
        ":tmi.twitch.tv RECONNECT",
        ":tmi.twitch.tv HOSTTARGET #chan :other 5",
        "@badges=;color=;display-name=a;emotes=;message-id=1;thread-id=1_2;turbo=0;user-id=1;user-type= :a!a@a.tmi.twitch.tv WHISPER b :hi",
        ":tmi.twitch.tv 001 justinfan1 :Welcome, GLHF!",
    ];
    for source in without_channel {
        let line = read_line(source).unwrap();
        assert_eq!(channel_login(&line.kind), None, "{}", source);
        assert!(forward_message(&line.kind, source.to_owned(), 5).is_none());
    }
}

#[test]
fn the_clock_stamps_a_forwarded_message() {
    let clock = || {
        std::time::SystemTime::now()
            .duration_since(std::time::UNIX_EPOCH)
            .unwrap()
            .as_millis() as i64
    };
    let before = clock();
    let kind = read_line(PRIVMSG).unwrap().kind;
    let message = forward_message_now(&kind, PRIVMSG.to_owned()).unwrap();
    let after = clock();
    assert!(before - 1000 <= message.time_received && message.time_received <= after + 1000);
    assert_eq!(message.channel_login, "chan");
    assert_eq!(message.message_source, PRIVMSG);
    let ping = read_line("PING :tmi.twitch.tv").unwrap().kind;
    assert!(forward_message_now(&ping, "PING :tmi.twitch.tv".to_owned()).is_none());
}

#[test]
fn a_full_chunk_is_stored_without_a_pause() {
    assert_eq!(plan_chunk(0, 256), ChunkPlan { sleep: true, store: false });
    assert_eq!(plan_chunk(1, 256), ChunkPlan { sleep: true, store: true });
    assert_eq!(plan_chunk(255, 256), ChunkPlan { sleep: true, store: true });
    assert_eq!(plan_chunk(256, 256), ChunkPlan { sleep: false, store: true });
    assert_eq!(plan_chunk(0, 0), ChunkPlan { sleep: true, store: false });
    assert_eq!(plan_chunk(3, 0), ChunkPlan { sleep: false, store: true });
    assert!(chunk_has_room(0, 1));
    assert!(chunk_has_room(255, 256));
    assert!(!chunk_has_room(256, 256));
    assert!(!chunk_has_room(0, 0));
}

#[test]
fn a_failed_query_leaves_the_subscriptions_alone() {
    let step = join_part_step::<String>(Ok(vec!["a".to_owned(), "b".to_owned()]));
    assert!(matches!(step, JoinPartStep::SetWantedChannels(logins) if logins == vec!["a".to_owned(), "b".to_owned()]));
    assert!(matches!(join_part_step(Err("pool".to_owned())), JoinPartStep::Skip));
    assert!(matches!(join_part_step::<()>(Ok(vec![])), JoinPartStep::SetWantedChannels(l) if l.is_empty()));
}

#[test]
fn a_join_is_confirmed_when_wanted_and_joined() {
    assert!(is_join_confirmed(true, true));
    assert!(!is_join_confirmed(true, false));
    assert!(!is_join_confirmed(false, true));
    assert!(!is_join_confirmed(false, false));
}
