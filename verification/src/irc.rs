//! The chat protocol's wire messages as plain values.
//!
//! Parsing, classification and serialisation of wire lines are done by the
//! `twitch-irc` crate. This module holds the library's own picture of a
//! message, the names under which the contracts speak of what that crate
//! computes, and the operations on tags that the replay needs.

use vstd::prelude::*;
use vstd::string::*;
use twitch_irc::message::AsRawIRC;
use twitch_irc::message::ServerMessage;
use crate::text::chars_of;

verus! {

/// One key-value tag of a message. A tag may have no value.
#[derive(Debug, Clone)]
pub struct Tag {
    pub key: String,
    pub value: Option<String>,
}

/// The sender part of a message.
#[derive(Debug, Clone)]
#[allow(inconsistent_fields)]
pub enum IrcPrefix {
    HostOnly { host: String },
    Full { nick: String, user: Option<String>, host: Option<String> },
}

/// A protocol-level message: tags, optional prefix, command and parameters.
///
/// The tags are kept as a list in which no key occurs twice (see
/// [`IrcMessage::wf`]); their order carries no meaning.
#[derive(Debug, Clone)]
pub struct IrcMessage {
    pub tags: Vec<Tag>,
    pub prefix: Option<IrcPrefix>,
    pub command: String,
    pub params: Vec<String>,
}

/// What a prefix is, in terms of character sequences.
#[allow(inconsistent_fields)]
pub enum PrefixModel {
    HostOnly { host: Seq<char> },
    Full { nick: Seq<char>, user: Option<Seq<char>>, host: Option<Seq<char>> },
}

/// What a message is: the tags as a map from key to optional value, and the
/// texts of prefix, command and parameters.
pub struct IrcMessageModel {
    pub tags: Map<Seq<char>, Option<Seq<char>>>,
    pub prefix: Option<PrefixModel>,
    pub command: Seq<char>,
    pub params: Seq<Seq<char>>,
}

/// The map that a list of tags stands for; of two tags with one key the later
/// one counts.
pub open spec fn tags_map(tags: Seq<Tag>) -> Map<Seq<char>, Option<Seq<char>>>
    decreases tags.len(),
{
    if tags.len() == 0 {
        Map::empty()
    } else {
        tags_map(tags.drop_last()).insert(tags.last().key@, tags.last().value.deep_view())
    }
}

/// No key occurs twice in the list.
pub open spec fn keys_distinct(tags: Seq<Tag>) -> bool {
    forall|i: int, j: int| 0 <= i < j < tags.len() ==> tags[i].key@ != tags[j].key@
}

impl View for IrcPrefix {
    type V = PrefixModel;

    open spec fn view(&self) -> PrefixModel {
        match *self {
            IrcPrefix::HostOnly { host } => PrefixModel::HostOnly { host: host@ },
            IrcPrefix::Full { nick, user, host } => PrefixModel::Full {
                nick: nick@,
                user: user.deep_view(),
                host: host.deep_view(),
            },
        }
    }
}

/// The model of an optional prefix.
pub open spec fn prefix_model(prefix: Option<IrcPrefix>) -> Option<PrefixModel> {
    match prefix {
        Some(p) => Some(p@),
        None => None,
    }
}

impl View for IrcMessage {
    type V = IrcMessageModel;

    open spec fn view(&self) -> IrcMessageModel {
        IrcMessageModel {
            tags: tags_map(self.tags@),
            prefix: prefix_model(self.prefix),
            command: self.command@,
            params: self.params.deep_view(),
        }
    }
}

impl IrcMessage {
    /// The invariant of a message: no tag key occurs twice.
    pub open spec fn wf(&self) -> bool {
        keys_distinct(self.tags@)
    }
}

/// What a moderator's `CLEARCHAT` did.
#[derive(Debug, Clone)]
#[allow(inconsistent_fields)]
pub enum ClearAction {
    /// The whole chat was cleared.
    ChatCleared,
    /// A user was banned for good.
    UserBanned { user_login: String, user_id: String },
    /// A user was timed out for `timeout_secs` seconds.
    UserTimedOut { user_login: String, user_id: String, timeout_secs: u64 },
}

/// The kinds of server message that the recorder tells apart, each with the
/// fields that its rules read. Every other message is `Other`.
#[derive(Debug, Clone)]
#[allow(inconsistent_fields)]
pub enum MessageKind {
    ClearChat { channel_login: String, action: ClearAction },
    ClearMsg { channel_login: String, message_id: String },
    Join { channel_login: String },
    Notice { channel_login: Option<String>, message_id: Option<String> },
    Part { channel_login: String },
    Privmsg { channel_login: String, sender_id: String, message_id: String },
    RoomState { channel_login: String },
    UserNotice { channel_login: String, sender_id: String, message_id: String },
    UserState { channel_login: String },
    Other,
}

#[verifier::external_type_specification]
#[verifier::external_body]
pub struct ExIRCMessage(twitch_irc::message::IRCMessage);

#[verifier::external_type_specification]
#[verifier::external_body]
pub struct ExServerMessage(twitch_irc::message::ServerMessage);

#[verifier::external_type_specification]
#[verifier::external_body]
pub struct ExClearChatAction(twitch_irc::message::ClearChatAction);

/// What `IRCMessage::parse` of `twitch-irc` makes of a wire line: the parsed
/// message, or `None` where the line is rejected.
pub uninterp spec fn parsed_irc_line(source: Seq<char>) -> Option<IrcMessageModel>;

/// The kind that `ServerMessage::try_from` of `twitch-irc` finds in a
/// message, or `None` where it rejects the message.
pub uninterp spec fn server_message_kind(message: IrcMessageModel) -> Option<MessageKind>;

/// The wire line that `AsRawIRC::as_raw_irc` of `twitch-irc` writes for a
/// message.
pub uninterp spec fn raw_irc_line(message: IrcMessageModel) -> Seq<char>;

/// Parses a wire line.
///
/// Trusted: calls `IRCMessage::parse` of `twitch-irc` and copies the fields
/// of its result. The contract names the result, and states that the tags of
/// a parsed message come as a list without repeated keys (they are read from
/// a hash map), in no particular order.
#[verifier::external_body]
pub(crate) fn parse_irc_line(source: &str) -> (parsed: Option<IrcMessage>)
    ensures
        match parsed {
            Some(message) => message.wf() && parsed_irc_line(source@) == Some(message@),
            None => parsed_irc_line(source@) is None,
        },
{
    let m = twitch_irc::message::IRCMessage::parse(source).ok()?;
    let tags = m.tags.0.into_iter().map(|(key, value)| Tag { key, value }).collect();
    let prefix = m.prefix.map(|p| match p {
        twitch_irc::message::IRCPrefix::HostOnly { host } => IrcPrefix::HostOnly { host },
        twitch_irc::message::IRCPrefix::Full { nick, user, host } => IrcPrefix::Full { nick, user, host },
    });
    Some(IrcMessage { tags, prefix, command: m.command, params: m.params })
}

/// Hands a message to `twitch-irc` in that crate's own type.
///
/// Trusted: copies the fields, nothing is stated of the opaque result.
#[verifier::external_body]
fn to_outside_message(message: &IrcMessage) -> twitch_irc::message::IRCMessage {
    let tags = message.tags.iter().map(|t| (t.key.clone(), t.value.clone())).collect();
    let prefix = message.prefix.clone().map(|p| match p {
        IrcPrefix::HostOnly { host } => twitch_irc::message::IRCPrefix::HostOnly { host },
        IrcPrefix::Full { nick, user, host } => twitch_irc::message::IRCPrefix::Full { nick, user, host },
    });
    let tags = twitch_irc::message::IRCTags(tags);
    twitch_irc::message::IRCMessage::new(tags, prefix, message.command.clone(), message.params.clone())
}

/// Copies what the moderation rules read of a `CLEARCHAT` action.
///
/// Trusted: tells the three variants of `ClearChatAction` of `twitch-irc`
/// apart and moves their fields; nothing is stated of the result here, the
/// caller names it.
#[verifier::external_body]
fn clear_action_of(action: twitch_irc::message::ClearChatAction) -> ClearAction {
    match action {
        twitch_irc::message::ClearChatAction::ChatCleared => ClearAction::ChatCleared,
        twitch_irc::message::ClearChatAction::UserBanned { user_login, user_id } => ClearAction::UserBanned { user_login, user_id },
        twitch_irc::message::ClearChatAction::UserTimedOut { user_login, user_id, timeout_length } => ClearAction::UserTimedOut { user_login, user_id, timeout_secs: timeout_length.as_secs() },
    }
}

/// Copies what the recorder reads of the messages that only tell of a
/// channel's state or membership.
///
/// Trusted: tells `JOIN`, `PART`, `ROOMSTATE` and `USERSTATE` apart from the
/// remaining variants of `ServerMessage` of `twitch-irc` and moves the
/// channel's login; nothing is stated of the result here, the caller names
/// it.
#[verifier::external_body]
fn channel_event_of(message: ServerMessage) -> MessageKind {
    match message {
        ServerMessage::Join(m) => MessageKind::Join { channel_login: m.channel_login },
        ServerMessage::Part(m) => MessageKind::Part { channel_login: m.channel_login },
        ServerMessage::RoomState(m) => MessageKind::RoomState { channel_login: m.channel_login },
        ServerMessage::UserState(m) => MessageKind::UserState { channel_login: m.channel_login },
        _ => MessageKind::Other,
    }
}

/// Writes a message in wire format.
///
/// Trusted: calls `AsRawIRC::as_raw_irc` of `twitch-irc`, which writes the
/// tags sorted by key, so that the line depends on the message's model alone.
/// The contract names the result.
#[verifier::external_body]
pub(crate) fn render_irc_line(message: &IrcMessage) -> (line: String)
    requires
        message.wf(),
    ensures
        line@ == raw_irc_line(message@),
{
    to_outside_message(message).as_raw_irc()
}

/// The value of the tag `key`, where the tag is there and has a value.
pub open spec fn tag_text(tags: Map<Seq<char>, Option<Seq<char>>>, key: Seq<char>) -> Option<
    Seq<char>,
> {
    if tags.contains_key(key) {
        tags[key]
    } else {
        None
    }
}

/// The number that a decimal digit stands for.
pub open spec fn digit_value(c: char) -> Option<nat> {
    if c == '0' {
        Some(0)
    } else if c == '1' {
        Some(1)
    } else if c == '2' {
        Some(2)
    } else if c == '3' {
        Some(3)
    } else if c == '4' {
        Some(4)
    } else if c == '5' {
        Some(5)
    } else if c == '6' {
        Some(6)
    } else if c == '7' {
        Some(7)
    } else if c == '8' {
        Some(8)
    } else if c == '9' {
        Some(9)
    } else {
        None
    }
}

/// Where a left-to-right reading of an emote list stands: in an emote id, in
/// the first number of a range, in its second number, or past a fault.
/// `seen` says whether the number has a digit yet.
#[allow(inconsistent_fields)]
pub enum EmoteScan {
    Id,
    Start { seen: bool, start: nat },
    End { start: nat, seen: bool, end: nat },
    Fault,
}

/// The largest number that an emote range may hold and still count as plain.
pub const EMOTE_INDEX_LIMIT: u64 = 1_000_000_000;

/// One step of the reading.
pub open spec fn emote_step(state: EmoteScan, c: char) -> EmoteScan {
    match state {
        EmoteScan::Id => if c == ':' {
            EmoteScan::Start { seen: false, start: 0 }
        } else if c == '/' {
            EmoteScan::Fault
        } else {
            EmoteScan::Id
        },
        EmoteScan::Start { seen, start } => match digit_value(c) {
            Some(d) => if start * 10 + d < EMOTE_INDEX_LIMIT {
                EmoteScan::Start { seen: true, start: start * 10 + d }
            } else {
                EmoteScan::Fault
            },
            None => if c == '-' && seen {
                EmoteScan::End { start, seen: false, end: 0 }
            } else {
                EmoteScan::Fault
            },
        },
        EmoteScan::End { start, seen, end } => match digit_value(c) {
            Some(d) => if end * 10 + d < EMOTE_INDEX_LIMIT {
                EmoteScan::End { start, seen: true, end: end * 10 + d }
            } else {
                EmoteScan::Fault
            },
            None => if seen && start <= end + 1 && c == ',' {
                EmoteScan::Start { seen: false, start: 0 }
            } else if seen && start <= end + 1 && c == '/' {
                EmoteScan::Id
            } else {
                EmoteScan::Fault
            },
        },
        EmoteScan::Fault => EmoteScan::Fault,
    }
}

/// The state after reading all of `text`.
pub open spec fn emote_scan(text: Seq<char>) -> EmoteScan
    decreases text.len(),
{
    if text.len() == 0 {
        EmoteScan::Id
    } else {
        emote_step(emote_scan(text.drop_last()), text.last())
    }
}

/// An emote list is plain when it is empty or has the form
/// `id:from-to,from-to/id:from-to`, each number written in digits alone and
/// below [`EMOTE_INDEX_LIMIT`], and no `from` more than one above its `to`
/// (a range of `from` one above `to` is empty).
pub open spec fn emotes_plain(text: Seq<char>) -> bool {
    text.len() == 0 || (emote_scan(text) matches EmoteScan::End { start, seen, end } && seen
        && start <= end + 1)
}

/// The messages that may be handed to the classification of `twitch-irc`.
///
/// That code slices the `color` tag by bytes, multiplies the `followers-only`
/// tag by sixty and subtracts the bounds of each emote range; it is called
/// only where none of these can fail.
pub open spec fn safe_to_classify(message: IrcMessageModel) -> bool {
    &&& tag_text(message.tags, "color"@) matches Some(v) ==> vstd::utf8::is_ascii_chars(v)
    &&& tag_text(message.tags, "followers-only"@) matches Some(v) ==> v.len() <= 15
    &&& tag_text(message.tags, "emotes"@) matches Some(v) ==> emotes_plain(v)
}

/// Classifies a message.
///
/// Trusted: calls `ServerMessage::try_from` of `twitch-irc`, tells the
/// variants of its result apart and moves the fields that the recorder
/// reads. The contract names the result.
#[verifier::external_body]
pub(crate) fn classify_message(message: &IrcMessage) -> (kind: Option<MessageKind>)
    requires
        message.wf(),
        safe_to_classify(message@),
    ensures
        kind == server_message_kind(message@),
{
    Some(match ServerMessage::try_from(to_outside_message(message)).ok()? {
        ServerMessage::ClearChat(m) => MessageKind::ClearChat { channel_login: m.channel_login, action: clear_action_of(m.action) },
        ServerMessage::ClearMsg(m) => MessageKind::ClearMsg { channel_login: m.channel_login, message_id: m.message_id },
        ServerMessage::Notice(m) => MessageKind::Notice { channel_login: m.channel_login, message_id: m.message_id },
        ServerMessage::Privmsg(m) => MessageKind::Privmsg { channel_login: m.channel_login, sender_id: m.sender.id, message_id: m.message_id },
        ServerMessage::UserNotice(m) => MessageKind::UserNotice { channel_login: m.channel_login, sender_id: m.sender.id, message_id: m.message_id },
        other => channel_event_of(other),
    })
}

/// In a list without repeated keys, the map holds a key exactly where some
/// tag of the list has it, and then with that tag's value.
pub proof fn lemma_tags_map_lookup(tags: Seq<Tag>, key: Seq<char>)
    requires
        keys_distinct(tags),
    ensures
        tags_map(tags).contains_key(key) <==> exists|i: int|
            0 <= i < tags.len() && tags[i].key@ == key,
        forall|i: int|
            0 <= i < tags.len() && tags[i].key@ == key ==> tags_map(tags)[key]
                == tags[i].value.deep_view(),
    decreases tags.len(),
{
    if tags.len() > 0 {
        let front = tags.drop_last();
        lemma_tags_map_lookup(front, key);
        assert forall|i: int| 0 <= i < front.len() implies front[i] == tags[i] by {}
        if tags.last().key@ == key {
            assert(tags[tags.len() - 1].key@ == key);
            assert forall|i: int| 0 <= i < tags.len() && tags[i].key@ == key implies i
                == tags.len() - 1 by {}
        } else {
            if exists|i: int| 0 <= i < tags.len() && tags[i].key@ == key {
                let i = choose|i: int| 0 <= i < tags.len() && tags[i].key@ == key;
                assert(front[i].key@ == key);
            }
            if tags_map(front).contains_key(key) {
                let i = choose|i: int| 0 <= i < front.len() && front[i].key@ == key;
                assert(tags[i].key@ == key);
            }
            assert forall|i: int| 0 <= i < tags.len() && tags[i].key@ == key implies tags_map(
                tags,
            )[key] == tags[i].value.deep_view() by {
                assert(front[i].key@ == key);
            }
        }
    }
}

/// Replacing the tag at `at` by one with the same key changes the map as an
/// insertion under that key does.
pub proof fn lemma_tags_map_update(tags: Seq<Tag>, at: int, tag: Tag)
    requires
        keys_distinct(tags),
        0 <= at < tags.len(),
        tags[at].key@ == tag.key@,
    ensures
        keys_distinct(tags.update(at, tag)),
        tags_map(tags.update(at, tag)) == tags_map(tags).insert(tag.key@, tag.value.deep_view()),
    decreases tags.len(),
{
    let updated = tags.update(at, tag);
    if at == tags.len() - 1 {
        assert(updated.drop_last() == tags.drop_last());
        assert(tags_map(updated) =~= tags_map(tags).insert(tag.key@, tag.value.deep_view()));
    } else {
        let front = tags.drop_last();
        lemma_tags_map_update(front, at, tag);
        assert(updated.drop_last() == front.update(at, tag));
        assert(updated.last() == tags.last());
        assert(tags[tags.len() - 1].key@ != tags[at].key@);
        assert(tags_map(updated) =~= tags_map(tags).insert(tag.key@, tag.value.deep_view()));
    }
}

/// The place of the tag with the given key.
pub fn find_tag(tags: &Vec<Tag>, key: &String) -> (found: Option<usize>)
    ensures
        match found {
            Some(i) => i < tags.len() && tags[i as int].key@ == key@,
            None => forall|j: int| 0 <= j < tags.len() ==> tags[j].key@ != key@,
        },
{
    let mut i: usize = 0;
    while i < tags.len()
        invariant
            i <= tags.len(),
            forall|j: int| 0 <= j < i ==> tags[j].key@ != key@,
        decreases tags.len() - i,
    {
        if tags[i].key == *key {
            return Some(i);
        }
        i = i + 1;
    }
    None
}

/// Sets the tag `key` to `value`, whether or not the list held the key.
pub fn insert_tag(tags: &mut Vec<Tag>, key: String, value: Option<String>)
    requires
        keys_distinct(old(tags)@),
    ensures
        keys_distinct(final(tags)@),
        tags_map(final(tags)@) == tags_map(old(tags)@).insert(key@, value.deep_view()),
{
    let found = find_tag(tags, &key);
    let tag = Tag { key, value };
    match found {
        Some(i) => {
            proof {
                lemma_tags_map_update(tags@, i as int, tag);
            }
            tags.set(i, tag);
        },
        None => {
            proof {
                assert(tags@.push(tag).drop_last() == tags@);
            }
            tags.push(tag);
        },
    }
}

/// The value of the tag `key`, where the tag is there and has a value.
pub fn tag_value<'a>(message: &'a IrcMessage, key: &String) -> (value: Option<&'a String>)
    requires
        message.wf(),
    ensures
        match value {
            Some(v) => tag_text(message@.tags, key@) == Some(v@),
            None => tag_text(message@.tags, key@) is None,
        },
{
    proof {
        lemma_tags_map_lookup(message.tags@, key@);
    }
    match find_tag(&message.tags, key) {
        Some(i) => match &message.tags[i].value {
            Some(v) => Some(v),
            None => None,
        },
        None => None,
    }
}

fn digit_of(c: char) -> (d: Option<u64>)
    ensures
        match d {
            Some(v) => digit_value(c) == Some(v as nat),
            None => digit_value(c) is None,
        },
{
    if c == '0' {
        Some(0)
    } else if c == '1' {
        Some(1)
    } else if c == '2' {
        Some(2)
    } else if c == '3' {
        Some(3)
    } else if c == '4' {
        Some(4)
    } else if c == '5' {
        Some(5)
    } else if c == '6' {
        Some(6)
    } else if c == '7' {
        Some(7)
    } else if c == '8' {
        Some(8)
    } else if c == '9' {
        Some(9)
    } else {
        None
    }
}

/// The reading state that the scanner's variables stand for.
spec fn scan_state(phase: u8, seen: bool, start: u64, end: u64) -> EmoteScan {
    if phase == 0 {
        EmoteScan::Id
    } else if phase == 1 {
        EmoteScan::Start { seen, start: start as nat }
    } else if phase == 2 {
        EmoteScan::End { start: start as nat, seen, end: end as nat }
    } else {
        EmoteScan::Fault
    }
}

/// Whether an emote list is plain.
pub fn check_emotes_plain(text: &str) -> (plain: bool)
    ensures
        plain == emotes_plain(text@),
{
    let chars = chars_of(text);
    let mut phase: u8 = 0;
    let mut seen = false;
    let mut start: u64 = 0;
    let mut end: u64 = 0;
    let mut i: usize = 0;
    assert(chars@.take(0) =~= Seq::<char>::empty());
    while i < chars.len()
        invariant
            i <= chars.len(),
            start < EMOTE_INDEX_LIMIT,
            end < EMOTE_INDEX_LIMIT,
            scan_state(phase, seen, start, end) == emote_scan(chars@.take(i as int)),
        decreases chars.len() - i,
    {
        let c = chars[i];
        proof {
            assert(chars@.take(i + 1).drop_last() =~= chars@.take(i as int));
            assert(chars@.take(i + 1).last() == c);
        }
        if phase == 0 {
            if c == ':' {
                phase = 1;
                seen = false;
                start = 0;
            } else if c == '/' {
                phase = 3;
            }
        } else if phase == 1 {
            match digit_of(c) {
                Some(d) => {
                    if start * 10 + d < EMOTE_INDEX_LIMIT {
                        start = start * 10 + d;
                        seen = true;
                    } else {
                        phase = 3;
                    }
                },
                None => {
                    if c == '-' && seen {
                        phase = 2;
                        seen = false;
                        end = 0;
                    } else {
                        phase = 3;
                    }
                },
            }
        } else if phase == 2 {
            match digit_of(c) {
                Some(d) => {
                    if end * 10 + d < EMOTE_INDEX_LIMIT {
                        end = end * 10 + d;
                        seen = true;
                    } else {
                        phase = 3;
                    }
                },
                None => {
                    if seen && start <= end + 1 && c == ',' {
                        phase = 1;
                        seen = false;
                        start = 0;
                    } else if seen && start <= end + 1 && c == '/' {
                        phase = 0;
                    } else {
                        phase = 3;
                    }
                },
            }
        }
        i = i + 1;
    }
    assert(chars@.take(chars.len() as int) =~= chars@);
    chars.len() == 0 || (phase == 2 && seen && start <= end + 1)
}

/// Whether a message may be handed to the classification of `twitch-irc`.
pub fn check_safe_to_classify(message: &IrcMessage) -> (safe: bool)
    requires
        message.wf(),
    ensures
        safe == safe_to_classify(message@),
{
    let color_ok = match tag_value(message, &"color".to_owned()) {
        Some(v) => v.as_str().is_ascii(),
        None => true,
    };
    let followers_ok = match tag_value(message, &"followers-only".to_owned()) {
        Some(v) => v.as_str().unicode_len() <= 15,
        None => true,
    };
    let emotes_ok = match tag_value(message, &"emotes".to_owned()) {
        Some(v) => check_emotes_plain(v.as_str()),
        None => true,
    };
    color_ok && followers_ok && emotes_ok
}

/// A wire line that was read: the message and its kind.
#[derive(Debug, Clone)]
pub struct ReadLine {
    pub message: IrcMessage,
    pub kind: MessageKind,
}

/// What reading a wire line gives: the parsed message and its kind, where
/// the line parses, may be classified and is accepted by the classification.
pub open spec fn line_reading(source: Seq<char>) -> Option<(IrcMessageModel, MessageKind)> {
    match parsed_irc_line(source) {
        Some(message) => if safe_to_classify(message) {
            match server_message_kind(message) {
                Some(kind) => Some((message, kind)),
                None => None,
            }
        } else {
            None
        },
        None => None,
    }
}

/// Reads a wire line: parses it and finds the kind of server message in it.
///
/// A line that does not parse, that is not a well-formed message of its
/// command, or whose `color`, `followers-only` or `emotes` tag falls outside
/// [`safe_to_classify`] is not read.
pub fn read_line(source: &str) -> (read: Option<ReadLine>)
    ensures
        match read {
            Some(line) => line.message.wf() && line_reading(source@) == Some(
                (line.message@, line.kind),
            ),
            None => line_reading(source@) is None,
        },
{
    let message = match parse_irc_line(source) {
        Some(message) => message,
        None => {
            return None;
        },
    };
    if !check_safe_to_classify(&message) {
        return None;
    }
    match classify_message(&message) {
        Some(kind) => Some(ReadLine { message, kind }),
        None => None,
    }
}

} // verus!
