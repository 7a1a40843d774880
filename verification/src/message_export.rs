//! The replay transformation: stored wire lines are read back, marked where a
//! later moderation event deleted them, and written out again with the tags
//! that tell a replayed message from a live one.

use vstd::prelude::*;
use vstd::string::*;
use crate::db::StoredMessage;
use crate::irc::{
    insert_tag, line_reading, parsed_irc_line, raw_irc_line, read_line, render_irc_line,
    ClearAction, IrcMessage, IrcMessageModel, IrcPrefix, MessageKind, PrefixModel, ReadLine, Tag,
};
use crate::text::{decimal_int, signed_decimal_string};
use crate::web::get_recent_messages::GetRecentMessagesQueryOptions;

verus! {

/// How `format_duration` of `humantime` writes a span of whole seconds, such
/// as `5m 2s`.
pub uninterp spec fn formatted_duration(secs: u64) -> Seq<char>;

/// Writes a span of whole seconds for people to read.
///
/// Trusted: calls `humantime::format_duration` on a `Duration` of `secs`
/// seconds. The contract names the result.
#[verifier::external_body]
fn format_timeout(secs: u64) -> (text: String)
    ensures
        text@ == formatted_duration(secs),
{
    humantime::format_duration(std::time::Duration::from_secs(secs)).to_string()
}

/// One message of a replay.
#[derive(Debug)]
pub struct ContainerFrame {
    /// The message as it was read back from its stored line.
    pub original_message: IrcMessage,
    /// The kind of server message found in it.
    pub kind: MessageKind,
    /// When the recorder received the message, in milliseconds since the Unix
    /// epoch. Written as `rm-received-ts`.
    pub time_received: i64,
    /// Whether a later `CLEARCHAT` or `CLEARMSG` deleted this message.
    /// Written as `rm-deleted=1`.
    pub deleted_by_moderation: bool,
}

/// What a frame is.
pub struct FrameModel {
    pub message: IrcMessageModel,
    pub kind: MessageKind,
    pub time_received: int,
    pub deleted: bool,
}

impl View for ContainerFrame {
    type V = FrameModel;

    open spec fn view(&self) -> FrameModel {
        FrameModel {
            message: self.original_message@,
            kind: self.kind,
            time_received: self.time_received as int,
            deleted: self.deleted_by_moderation,
        }
    }
}

impl ContainerFrame {
    /// The invariant of a frame: that of its message.
    pub open spec fn wf(&self) -> bool {
        self.original_message.wf()
    }
}

/// The text and the `msg-id` of the notice that stands for a `CLEARCHAT`.
pub open spec fn clearchat_notice_text(action: ClearAction) -> (Seq<char>, Seq<char>) {
    match action {
        ClearAction::ChatCleared => ("Chat has been cleared by a moderator."@, "rm-clearchat"@),
        ClearAction::UserTimedOut { user_login, user_id, timeout_secs } => (
            user_login@ + " has been timed out for "@ + formatted_duration(timeout_secs) + "."@,
            "rm-timeout"@,
        ),
        ClearAction::UserBanned { user_login, user_id } => (
            user_login@ + " has been permanently banned."@,
            "rm-permaban"@,
        ),
    }
}

/// The notice that stands for a `CLEARCHAT` on `channel_login`:
/// `@msg-id=rm-timeout :tmi.twitch.tv NOTICE #channel :text`.
pub open spec fn clearchat_notice(channel_login: Seq<char>, action: ClearAction) -> IrcMessageModel {
    IrcMessageModel {
        tags: Map::empty().insert("msg-id"@, Some(clearchat_notice_text(action).1)),
        prefix: Some(PrefixModel::HostOnly { host: "tmi.twitch.tv"@ }),
        command: "NOTICE"@,
        params: seq!["#"@ + channel_login, clearchat_notice_text(action).0],
    }
}

/// The message with the tags of a replay: `historical=1`, the time of
/// receipt as `rm-received-ts`, and `rm-deleted=1` where it was deleted.
pub open spec fn with_replay_tags(message: IrcMessageModel, time_received: int, deleted: bool)
    -> IrcMessageModel {
    let tags = message.tags.insert("historical"@, Some("1"@)).insert(
        "rm-received-ts"@,
        Some(decimal_int(time_received)),
    );
    IrcMessageModel {
        tags: if deleted {
            tags.insert("rm-deleted"@, Some("1"@))
        } else {
            tags
        },
        ..message
    }
}

/// The message that a frame is written from: the notice that stands for it
/// where a `CLEARCHAT` is to be rewritten, else the message itself.
pub open spec fn message_to_export(frame: FrameModel, options: GetRecentMessagesQueryOptions)
    -> IrcMessageModel {
    match frame.kind {
        MessageKind::ClearChat { channel_login, action } => if options.clearchat_to_notice {
            clearchat_notice(channel_login@, action)
        } else {
            frame.message
        },
        _ => frame.message,
    }
}

/// Whether the frame is left out of the replay.
pub open spec fn frame_hidden(frame: FrameModel, options: GetRecentMessagesQueryOptions) -> bool {
    ||| options.hide_moderated_messages && frame.deleted
    ||| options.hide_moderation_messages && (frame.kind is ClearChat || frame.kind is ClearMsg)
}

/// The line that a frame is replayed as, or `None` where it is left out.
pub open spec fn frame_export(frame: FrameModel, options: GetRecentMessagesQueryOptions)
    -> Option<Seq<char>> {
    if frame_hidden(frame, options) {
        None
    } else {
        Some(
            raw_irc_line(
                with_replay_tags(
                    message_to_export(frame, options),
                    frame.time_received,
                    frame.deleted,
                ),
            ),
        )
    }
}

/// Builds the notice that stands for a `CLEARCHAT`.
fn build_clearchat_notice(channel_login: &String, action: &ClearAction) -> (notice: IrcMessage)
    ensures
        notice.wf(),
        notice@ == clearchat_notice(channel_login@, *action),
{
    let mut text = String::new();
    let extra_tag: String;
    match action {
        ClearAction::ChatCleared => {
            text.append("Chat has been cleared by a moderator.");
            extra_tag = "rm-clearchat".to_owned();
        },
        ClearAction::UserTimedOut { user_login, user_id, timeout_secs } => {
            text.append(user_login.as_str());
            text.append(" has been timed out for ");
            let span = format_timeout(*timeout_secs);
            text.append(span.as_str());
            text.append(".");
            extra_tag = "rm-timeout".to_owned();
        },
        ClearAction::UserBanned { user_login, user_id } => {
            text.append(user_login.as_str());
            text.append(" has been permanently banned.");
            extra_tag = "rm-permaban".to_owned();
        },
    }
    let mut target = "#".to_owned();
    target.append(channel_login.as_str());
    let mut tags: Vec<Tag> = Vec::new();
    insert_tag(&mut tags, "msg-id".to_owned(), Some(extra_tag));
    let mut params: Vec<String> = Vec::new();
    params.push(target);
    params.push(text);
    let notice = IrcMessage {
        tags,
        prefix: Some(IrcPrefix::HostOnly { host: "tmi.twitch.tv".to_owned() }),
        command: "NOTICE".to_owned(),
        params,
    };
    proof {
        assert(notice@.params =~= clearchat_notice(channel_login@, *action).params);
        assert(notice@.tags =~= clearchat_notice(channel_login@, *action).tags);
    }
    notice
}

impl ContainerFrame {
    /// Writes the frame as a line of the replay, or gives `None` where the
    /// options leave it out.
    pub fn export(self, options: &GetRecentMessagesQueryOptions) -> (line: Option<String>)
        requires
            self.wf(),
        ensures
            line.deep_view() == frame_export(self@, *options),
    {
        if options.hide_moderated_messages && self.deleted_by_moderation {
            return None;
        }
        let is_moderation = match &self.kind {
            MessageKind::ClearChat { .. } => true,
            MessageKind::ClearMsg { .. } => true,
            _ => false,
        };
        if options.hide_moderation_messages && is_moderation {
            return None;
        }
        let ghost model = self@;
        let ContainerFrame { original_message, kind, time_received, deleted_by_moderation } = self;
        let mut message = match &kind {
            MessageKind::ClearChat { channel_login, action } => {
                if options.clearchat_to_notice {
                    build_clearchat_notice(channel_login, action)
                } else {
                    original_message
                }
            },
            _ => original_message,
        };
        assert(message@ == message_to_export(model, *options));
        insert_tag(&mut message.tags, "historical".to_owned(), Some("1".to_owned()));
        insert_tag(
            &mut message.tags,
            "rm-received-ts".to_owned(),
            Some(signed_decimal_string(time_received)),
        );
        if deleted_by_moderation {
            insert_tag(&mut message.tags, "rm-deleted".to_owned(), Some("1".to_owned()));
        }
        assert(message@ == with_replay_tags(
            message_to_export(model, *options),
            model.time_received,
            model.deleted,
        ));
        Some(render_irc_line(&message))
    }
}

/// The messages of one replay, in the order in which they arrived.
#[derive(Debug)]
pub struct MessageContainer {
    pub options: GetRecentMessagesQueryOptions,
    pub frames: Vec<ContainerFrame>,
}

/// The models of a list of frames.
pub open spec fn frame_models(frames: Seq<ContainerFrame>) -> Seq<FrameModel> {
    Seq::new(frames.len(), |i: int| frames[i]@)
}

/// Every frame of the list meets its invariant.
pub open spec fn frames_wf(frames: Seq<ContainerFrame>) -> bool {
    forall|i: int| 0 <= i < frames.len() ==> #[trigger] frames[i].wf()
}

/// Only `PRIVMSG`, `CLEARCHAT`, `CLEARMSG`, `USERNOTICE`, `NOTICE` and
/// `ROOMSTATE` are replayed.
pub open spec fn replayed_kind(kind: MessageKind) -> bool {
    kind is Privmsg || kind is ClearChat || kind is ClearMsg || kind is UserNotice
        || kind is Notice || kind is RoomState
}

/// The notices that are never replayed, by their `msg-id`.
pub open spec fn ignored_notice_id(id: Seq<char>) -> bool {
    id == "no_permission"@ || id == "host_on"@ || id == "host_off"@ || id
        == "host_target_went_offline"@ || id == "msg_channel_suspended"@
}

/// Whether a message of this kind is a notice that is never replayed.
pub open spec fn ignored_notice(kind: MessageKind) -> bool {
    kind matches MessageKind::Notice { message_id: Some(id), .. } && ignored_notice_id(id@)
}

/// The sender and the id of a chat message or user notice.
pub open spec fn chat_identity(kind: MessageKind) -> Option<(Seq<char>, Seq<char>)> {
    match kind {
        MessageKind::Privmsg { sender_id, message_id, .. } => Some((sender_id@, message_id@)),
        MessageKind::UserNotice { sender_id, message_id, .. } => Some((sender_id@, message_id@)),
        _ => None,
    }
}

/// Whether the moderation event `event` deletes an earlier message of kind
/// `target`: a `CLEARCHAT` without a user deletes everything, one for a user
/// deletes that user's chat messages and user notices, and a `CLEARMSG`
/// deletes the chat message or user notice with its id.
pub open spec fn deletes(event: MessageKind, target: MessageKind) -> bool {
    match event {
        MessageKind::ClearChat { action, .. } => match action {
            ClearAction::ChatCleared => true,
            ClearAction::UserTimedOut { user_id, .. } => chat_identity(target) matches Some(
                (sender, _),
            ) && sender == user_id@,
            ClearAction::UserBanned { user_id, .. } => chat_identity(target) matches Some(
                (sender, _),
            ) && sender == user_id@,
        },
        MessageKind::ClearMsg { message_id, .. } => chat_identity(target) matches Some((_, id))
            && id == message_id@,
        _ => false,
    }
}

/// The frames after the moderation event `event` arrived: those that it
/// deletes are marked, the others stay as they were.
pub open spec fn marked_by(frames: Seq<FrameModel>, event: MessageKind) -> Seq<FrameModel> {
    Seq::new(
        frames.len(),
        |i: int|
            if deletes(event, frames[i].kind) {
                FrameModel { deleted: true, ..frames[i] }
            } else {
                frames[i]
            },
    )
}

/// The frames after one more stored line was taken in. A line that was not
/// read, or whose kind is not replayed, changes nothing; every other line
/// marks what it deletes and is added at the end, not deleted.
pub open spec fn frames_after(
    frames: Seq<FrameModel>,
    reading: Option<(IrcMessageModel, MessageKind)>,
    time_received: int,
) -> Seq<FrameModel> {
    match reading {
        Some((message, kind)) => if replayed_kind(kind) && !ignored_notice(kind) {
            marked_by(frames, kind).push(
                FrameModel { message, kind, time_received, deleted: false },
            )
        } else {
            frames
        },
        None => frames,
    }
}

/// The lines of a replay of the frames, in order, without the frames that
/// the options leave out.
pub open spec fn exported_lines(frames: Seq<FrameModel>, options: GetRecentMessagesQueryOptions)
    -> Seq<Seq<char>>
    decreases frames.len(),
{
    if frames.len() == 0 {
        Seq::empty()
    } else {
        let earlier = exported_lines(frames.drop_last(), options);
        match frame_export(frames.last(), options) {
            Some(line) => earlier.push(line),
            None => earlier,
        }
    }
}

/// The frames that a list of stored messages leaves in a container that was
/// empty.
pub open spec fn frames_of_stored(stored: Seq<StoredMessage>) -> Seq<FrameModel>
    decreases stored.len(),
{
    if stored.len() == 0 {
        Seq::empty()
    } else {
        frames_after(
            frames_of_stored(stored.drop_last()),
            line_reading(stored.last().message_source@),
            stored.last().time_received as int,
        )
    }
}

/// The replay of a list of stored messages under the given options.
pub open spec fn replay_of(stored: Seq<StoredMessage>, options: GetRecentMessagesQueryOptions)
    -> Seq<Seq<char>> {
    exported_lines(frames_of_stored(stored), options)
}

fn is_replayed_kind(kind: &MessageKind) -> (replayed: bool)
    ensures
        replayed == replayed_kind(*kind),
{
    match kind {
        MessageKind::Privmsg { .. } => true,
        MessageKind::ClearChat { .. } => true,
        MessageKind::ClearMsg { .. } => true,
        MessageKind::UserNotice { .. } => true,
        MessageKind::Notice { .. } => true,
        MessageKind::RoomState { .. } => true,
        _ => false,
    }
}

fn is_ignored_notice(kind: &MessageKind) -> (ignored: bool)
    ensures
        ignored == ignored_notice(*kind),
{
    match kind {
        MessageKind::Notice { channel_login, message_id } => match message_id {
            Some(id) => {
                *id == "no_permission".to_owned() || *id == "host_on".to_owned() || *id
                    == "host_off".to_owned() || *id == "host_target_went_offline".to_owned()
                    || *id == "msg_channel_suspended".to_owned()
            },
            None => false,
        },
        _ => false,
    }
}

fn is_deleted_by(event: &MessageKind, target: &MessageKind) -> (deleted: bool)
    ensures
        deleted == deletes(*event, *target),
{
    match event {
        MessageKind::ClearChat { channel_login, action } => match action {
            ClearAction::ChatCleared => true,
            ClearAction::UserTimedOut { user_login, user_id, timeout_secs } => match target {
                MessageKind::Privmsg { channel_login, sender_id, message_id } => *sender_id
                    == *user_id,
                MessageKind::UserNotice { channel_login, sender_id, message_id } => *sender_id
                    == *user_id,
                _ => false,
            },
            ClearAction::UserBanned { user_login, user_id } => match target {
                MessageKind::Privmsg { channel_login, sender_id, message_id } => *sender_id
                    == *user_id,
                MessageKind::UserNotice { channel_login, sender_id, message_id } => *sender_id
                    == *user_id,
                _ => false,
            },
        },
        MessageKind::ClearMsg { channel_login, message_id } => {
            let wanted = message_id;
            match target {
                MessageKind::Privmsg { channel_login, sender_id, message_id } => *message_id
                    == *wanted,
                MessageKind::UserNotice { channel_login, sender_id, message_id } => *message_id
                    == *wanted,
                _ => false,
            }
        },
        _ => false,
    }
}

impl MessageContainer {
    /// The invariant of a container: that of each of its frames.
    pub open spec fn wf(&self) -> bool {
        frames_wf(self.frames@)
    }

    /// An empty container for a replay under `options`.
    pub fn new(options: GetRecentMessagesQueryOptions) -> (container: Self)
        ensures
            container.wf(),
            container.options == options,
            container.frames@.len() == 0,
    {
        MessageContainer { options, frames: Vec::new() }
    }

    /// Marks the frames that the moderation event `event` deletes.
    fn mark_deleted(&mut self, event: &MessageKind)
        requires
            old(self).wf(),
        ensures
            final(self).wf(),
            final(self).options == old(self).options,
            frame_models(final(self).frames@) == marked_by(frame_models(old(self).frames@), *event),
    {
        let ghost before = self.frames@;
        let mut i: usize = 0;
        while i < self.frames.len()
            invariant
                i <= self.frames.len(),
                self.frames.len() == before.len(),
                self.options == old(self).options,
                frames_wf(self.frames@),
                forall|j: int|
                    0 <= j < i ==> #[trigger] self.frames[j]@ == marked_by(
                        frame_models(before),
                        *event,
                    )[j],
                forall|j: int| i <= j < before.len() ==> self.frames[j] == before[j],
            decreases self.frames.len() - i,
        {
            let ghost earlier = self.frames@;
            if is_deleted_by(event, &self.frames[i].kind) {
                self.frames[i].deleted_by_moderation = true;
            }
            assert forall|j: int| 0 <= j < self.frames.len() implies #[trigger] self.frames[j].wf() by {
                assert(earlier[j].wf());
            }
            i = i + 1;
        }
        assert(frame_models(self.frames@) =~= marked_by(frame_models(before), *event));
    }

    /// Takes a message that was read into the container: the earlier
    /// messages that it deletes are marked, and it is added at the end, not
    /// deleted. A message of a kind that is not replayed and a notice that
    /// is never replayed leave the container as it was.
    pub fn append_read(&mut self, line: ReadLine, time_received: i64)
        requires
            old(self).wf(),
            line.message.wf(),
        ensures
            final(self).wf(),
            final(self).options == old(self).options,
            frame_models(final(self).frames@) == frames_after(
                frame_models(old(self).frames@),
                Some((line.message@, line.kind)),
                time_received as int,
            ),
    {
        if !is_replayed_kind(&line.kind) {
            return ;
        }
        if is_ignored_notice(&line.kind) {
            return ;
        }
        self.mark_deleted(&line.kind);
        let frame = ContainerFrame {
            original_message: line.message,
            kind: line.kind,
            time_received,
            deleted_by_moderation: false,
        };
        let ghost marked = self.frames@;
        self.frames.push(frame);
        assert(frame_models(self.frames@) =~= frame_models(marked).push(frame@));
    }

    /// Takes one stored message into the container: reads its line back and
    /// takes it in as [`MessageContainer::append_read`] does. A line that
    /// cannot be read leaves the container as it was.
    pub fn append_stored_msg(&mut self, message: &StoredMessage)
        requires
            old(self).wf(),
        ensures
            final(self).wf(),
            final(self).options == old(self).options,
            frame_models(final(self).frames@) == frames_after(
                frame_models(old(self).frames@),
                line_reading(message.message_source@),
                message.time_received as int,
            ),
    {
        match read_line(message.message_source.as_str()) {
            Some(line) => self.append_read(line, message.time_received),
            None => {},
        }
    }

    /// Writes the replay: each frame in order, without those that the
    /// options leave out.
    pub fn export(self) -> (lines: Vec<String>)
        requires
            self.wf(),
        ensures
            lines.deep_view() == exported_lines(frame_models(self.frames@), self.options),
    {
        let ghost models = frame_models(self.frames@);
        let ghost all = self.frames@;
        let MessageContainer { options, frames } = self;
        let mut lines: Vec<String> = Vec::new();
        assert(lines.deep_view() =~= exported_lines(models.take(0), options));
        for frame in it: frames
            invariant
                it.seq() == all,
                models == frame_models(all),
                frames_wf(all),
                lines.deep_view() == exported_lines(models.take(it.index()), options),
        {
            let ghost done = it.index();
            assert(frame == all[done]);
            assert(frame@ == models[done]);
            proof {
                assert(models.take(done + 1).drop_last() =~= models.take(done));
                assert(models.take(done + 1).last() == models[done]);
            }
            let ghost earlier = lines.deep_view();
            match frame.export(&options) {
                Some(line) => {
                    lines.push(line);
                    assert(lines.deep_view() =~= earlier.push(line@));
                },
                None => {},
            }
        }
        assert(models.take(all.len() as int) =~= models);
        lines
    }
}

/// Replays stored messages: reads each line back in order, applies the
/// moderation events among them, and writes the lines that the options
/// leave in.
pub fn export_stored_messages(
    stored_messages: Vec<StoredMessage>,
    options: GetRecentMessagesQueryOptions,
) -> (lines: Vec<String>)
    ensures
        lines.deep_view() == replay_of(stored_messages@, options),
{
    let mut container = MessageContainer::new(options);
    let mut i: usize = 0;
    assert(stored_messages@.take(0) =~= Seq::<StoredMessage>::empty());
    assert(frame_models(container.frames@) =~= Seq::<FrameModel>::empty());
    while i < stored_messages.len()
        invariant
            i <= stored_messages.len(),
            container.wf(),
            container.options == options,
            frame_models(container.frames@) == frames_of_stored(stored_messages@.take(i as int)),
        decreases stored_messages.len() - i,
    {
        proof {
            assert(stored_messages@.take(i + 1).drop_last() =~= stored_messages@.take(i as int));
            assert(stored_messages@.take(i + 1).last() == stored_messages[i as int]);
        }
        container.append_stored_msg(&stored_messages[i]);
        i = i + 1;
    }
    assert(stored_messages@.take(stored_messages.len() as int) =~= stored_messages@);
    container.export()
}

/// Two lists of stored messages that hold the same texts at the same times.
pub open spec fn same_stored(first: Seq<StoredMessage>, second: Seq<StoredMessage>) -> bool {
    &&& first.len() == second.len()
    &&& forall|i: int|
        0 <= i < first.len() ==> first[i].time_received == second[i].time_received
            && first[i].message_source@ == second[i].message_source@
}

/// A replay depends on the times and texts of the stored messages and on
/// the options alone: replaying the same messages again gives the same
/// lines, character for character.
pub proof fn lemma_replay_is_repeatable(
    first: Seq<StoredMessage>,
    second: Seq<StoredMessage>,
    options: GetRecentMessagesQueryOptions,
)
    requires
        same_stored(first, second),
    ensures
        frames_of_stored(first) == frames_of_stored(second),
        replay_of(first, options) == replay_of(second, options),
    decreases first.len(),
{
    if first.len() > 0 {
        assert(same_stored(first.drop_last(), second.drop_last()));
        lemma_replay_is_repeatable(first.drop_last(), second.drop_last(), options);
    }
}

/// Round trip of one message: a stored line that is read as a chat message,
/// user notice, notice or room state is replayed as one line, written from the
/// message that was read with `historical=1` and its time of receipt as
/// `rm-received-ts`, whatever the options are.
pub proof fn lemma_single_message_replay(
    stored: StoredMessage,
    message: IrcMessageModel,
    kind: MessageKind,
    options: GetRecentMessagesQueryOptions,
)
    requires
        line_reading(stored.message_source@) == Some((message, kind)),
        kind is Privmsg || kind is UserNotice || kind is Notice || kind is RoomState,
        !ignored_notice(kind),
    ensures
        ({
            let written = with_replay_tags(message, stored.time_received as int, false);
            &&& replay_of(seq![stored], options) == seq![raw_irc_line(written)]
            &&& written.tags.contains_key("historical"@) && written.tags["historical"@] == Some(
                "1"@,
            )
            &&& written.tags.contains_key("rm-received-ts"@) && written.tags["rm-received-ts"@]
                == Some(decimal_int(stored.time_received as int))
            &&& written.command == message.command
            &&& written.params == message.params
            &&& written.prefix == message.prefix
        }),
{
    let list = seq![stored];
    assert(list.drop_last() =~= Seq::<StoredMessage>::empty());
    assert(list.last() == stored);
    let none = frames_of_stored(list.drop_last());
    assert(none =~= Seq::<FrameModel>::empty());
    let frame = FrameModel {
        message,
        kind,
        time_received: stored.time_received as int,
        deleted: false,
    };
    assert(marked_by(none, kind) =~= Seq::<FrameModel>::empty());
    let frames = frames_of_stored(list);
    assert(frames =~= seq![frame]);
    assert(frames.drop_last() =~= Seq::<FrameModel>::empty());
    assert(frames.last() == frame);
    assert(exported_lines(frames.drop_last(), options) =~= Seq::<Seq<char>>::empty());
    assert(!frame_hidden(frame, options));
    assert(message_to_export(frame, options) == message);
    assert(replay_of(list, options) =~= seq![
        raw_irc_line(with_replay_tags(message, stored.time_received as int, false)),
    ]);
    assert("historical"@ != "rm-received-ts"@) by {
        reveal_strlit("historical");
        reveal_strlit("rm-received-ts");
        assert("historical"@.len() == 10);
        assert("rm-received-ts"@.len() == 14);
    }
}

/// The written line of the message parses to the message again.
pub open spec fn parses_to_itself(message: IrcMessageModel) -> bool {
    parsed_irc_line(raw_irc_line(message)) == Some(message)
}

/// The second list holds the messages of the first, each line that parses
/// written anew from what it parses to, where that parses to itself again.
pub open spec fn written_anew(first: Seq<StoredMessage>, second: Seq<StoredMessage>) -> bool {
    &&& first.len() == second.len()
    &&& forall|i: int|
        0 <= i < first.len() ==> first[i].time_received == second[i].time_received
            && match parsed_irc_line(first[i].message_source@) {
            Some(message) => second[i].message_source@ == raw_irc_line(message)
                && parses_to_itself(message),
            None => second[i].message_source@ == first[i].message_source@,
        }
}

/// A replay does not depend on how a line was written: stored messages
/// whose lines were parsed and written anew replay to the same lines,
/// wherever the written lines parse to the same messages again.
pub proof fn lemma_replay_of_lines_written_anew(
    first: Seq<StoredMessage>,
    second: Seq<StoredMessage>,
    options: GetRecentMessagesQueryOptions,
)
    requires
        written_anew(first, second),
    ensures
        frames_of_stored(first) == frames_of_stored(second),
        replay_of(first, options) == replay_of(second, options),
    decreases first.len(),
{
    if first.len() > 0 {
        assert(written_anew(first.drop_last(), second.drop_last()));
        lemma_replay_of_lines_written_anew(first.drop_last(), second.drop_last(), options);
        assert(line_reading(first.last().message_source@) == line_reading(
            second.last().message_source@,
        ));
    }
}

/// A replay holds at most one line for each stored message.
pub proof fn lemma_replay_is_no_longer(
    stored: Seq<StoredMessage>,
    options: GetRecentMessagesQueryOptions,
)
    ensures
        frames_of_stored(stored).len() <= stored.len(),
        replay_of(stored, options).len() <= frames_of_stored(stored).len(),
    decreases stored.len(),
{
    if stored.len() > 0 {
        lemma_replay_is_no_longer(stored.drop_last(), options);
    }
    lemma_exported_is_no_longer(frames_of_stored(stored), options);
}

proof fn lemma_exported_is_no_longer(frames: Seq<FrameModel>, options: GetRecentMessagesQueryOptions)
    ensures
        exported_lines(frames, options).len() <= frames.len(),
    decreases frames.len(),
{
    if frames.len() > 0 {
        lemma_exported_is_no_longer(frames.drop_last(), options);
    }
}

} // verus!
