use vstd::prelude::*;

use crate::chat;
use crate::chat::{chatlog_of, LogId};
use crate::session::{SyncChatReq, SyncChatRes, WriteChatReq, WriteChatRes};
use crate::talk_chat;
use crate::talk_chat::Chat;

verus! {

/// Identifier of a channel.
pub type ChannelId = i64;

/// The broad family a channel type belongs to.
#[derive(Debug, Clone, Copy, PartialEq, Eq, Structural)]
pub enum ChannelKind {
    Normal,
    Open,
    Unknown,
}

/// The channel type the server reports; a type this client does not know
/// keeps the name the server sent.
#[derive(Debug, Clone, PartialEq, Eq)]
pub enum ChannelType {
    DirectChat,
    MultiChat,
    MemoChat,
    OpenDirectChat,
    OpenMultiChat,
    Unknown(String),
}

/// Direct, memo and group chats are normal channels, open direct and open
/// group chats are open channels, and any other type is of unknown kind.
pub open spec fn kind_of(t: ChannelType) -> ChannelKind {
    match t {
        ChannelType::DirectChat | ChannelType::MemoChat | ChannelType::MultiChat => ChannelKind::Normal,
        ChannelType::OpenDirectChat | ChannelType::OpenMultiChat => ChannelKind::Open,
        ChannelType::Unknown(_) => ChannelKind::Unknown,
    }
}

impl ChannelType {
    /// The family this channel type belongs to.
    pub fn kind(&self) -> (r: ChannelKind)
        ensures
            r == kind_of(*self),
    {
        match self {
            ChannelType::DirectChat | ChannelType::MemoChat | ChannelType::MultiChat => {
                ChannelKind::Normal
            },
            ChannelType::OpenDirectChat | ChannelType::OpenMultiChat => ChannelKind::Open,
            _ => ChannelKind::Unknown,
        }
    }
}

/// A piece of channel metadata as the server sends it, tagged with its type.
#[derive(Debug, Clone, PartialEq)]
pub struct LocoChannelMeta {
    pub meta_type: i32,
    pub revision: i64,
    pub author_id: i64,
    pub updated_at: i64,
    pub content: String,
}

/// A piece of channel metadata as the client keeps it, keyed elsewhere by its type.
#[derive(Debug, Clone, PartialEq)]
pub struct ChannelMeta {
    pub author_id: i64,
    pub updated_at: i64,
    pub revision: i64,
    pub content: String,
}

/// The client's metadata for a server's: every field but the type carried over.
pub open spec fn meta_of(meta: LocoChannelMeta) -> ChannelMeta {
    ChannelMeta {
        author_id: meta.author_id,
        updated_at: meta.updated_at,
        revision: meta.revision,
        content: meta.content,
    }
}

impl From<LocoChannelMeta> for ChannelMeta {
    fn from(meta: LocoChannelMeta) -> (r: Self)
        ensures
            r.author_id == meta.author_id,
            r.updated_at == meta.updated_at,
            r.revision == meta.revision,
            r.content == meta.content,
    {
        Self {
            author_id: meta.author_id,
            updated_at: meta.updated_at,
            revision: meta.revision,
            content: meta.content,
        }
    }
}

impl vstd::std_specs::convert::FromSpecImpl<LocoChannelMeta> for ChannelMeta {
    open spec fn obeys_from_spec() -> bool {
        true
    }

    open spec fn from_spec(meta: LocoChannelMeta) -> ChannelMeta {
        meta_of(meta)
    }
}

/// What the channel logic needs to know of the signed-in client.
#[derive(Debug, Clone, Copy, PartialEq, Eq, Structural)]
pub struct HeadlessTalk {
    pub user_id: i64,
}

/// A handle on one channel of a client.
#[derive(Debug, Clone, Copy)]
pub struct ClientChannel<'a> {
    id: ChannelId,
    client: &'a HeadlessTalk,
}

impl<'a> ClientChannel<'a> {
    /// The channel this handle stands for.
    pub closed spec fn id(&self) -> ChannelId {
        self.id
    }

    /// The client this handle belongs to.
    pub closed spec fn client(&self) -> HeadlessTalk {
        *self.client
    }

    pub fn new(id: ChannelId, client: &'a HeadlessTalk) -> (r: Self)
        ensures
            r.id() == id,
            r.client() == *client,
    {
        Self { id, client }
    }

    pub fn channel_id(&self) -> (r: ChannelId)
        ensures
            r == self.id(),
    {
        self.id
    }

    /// The request that writes `chat` to this channel, borrowing its texts.
    pub fn write_chat_request<'b>(&self, chat: &'b Chat, no_seen: bool) -> (r: WriteChatReq<'b>)
        ensures
            r.chat_id == self.id(),
            r.chat_type == chat.chat_type.0,
            r.msg_id == chat.message_id,
            r.no_seen == no_seen,
            text_view(r.message) == string_view(chat.content.message),
            text_view(r.attachment) == string_view(chat.content.attachment),
            text_view(r.supplement) == string_view(chat.content.supplement),
            chat.content.message is None ==> r.message is None,
            chat.content.message matches Some(m) ==> r.message matches Some(t) && t@ == m@,
            chat.content.attachment is None ==> r.attachment is None,
            chat.content.attachment matches Some(m) ==> r.attachment matches Some(t) && t@ == m@,
            chat.content.supplement is None ==> r.supplement is None,
            chat.content.supplement matches Some(m) ==> r.supplement matches Some(t) && t@ == m@,
    {
        WriteChatReq {
            chat_id: self.id,
            chat_type: chat.chat_type.0,
            msg_id: chat.message_id,
            message: borrow_text(&chat.content.message),
            no_seen,
            attachment: borrow_text(&chat.content.attachment),
            supplement: borrow_text(&chat.content.supplement),
        }
    }

    /// The record kept of `chat` once the server accepted it with `res`: the
    /// server's own record when it sent one, else one made from the chat and
    /// the position the server gave it, sent by the signed-in user.
    pub fn logged_chatlog(&self, chat: Chat, res: WriteChatRes) -> (r: chat::Chatlog)
        ensures
            r == written_chatlog(self.id(), self.client().user_id, chat, res),
            res.chatlog matches Some(log) ==> {
                &&& r.channel_id == log.channel_id
                &&& r.log_id == log.log_id
                &&& r.prev_log_id == log.prev_log_id
                &&& r.sender_id == log.author_id
                &&& r.send_at == log.send_at
                &&& r.chat == log.chat
                &&& r.referer == log.referer
            },
            res.chatlog is None ==> {
                &&& r.channel_id == self.id()
                &&& r.log_id == res.log_id
                &&& r.prev_log_id == Some(res.prev_id)
                &&& r.sender_id == self.client().user_id
                &&& r.send_at == res.send_at
                &&& r.chat == chat
                &&& r.referer is None
            },
    {
        match res.chatlog {
            Some(log) => chat::Chatlog::from(log),
            None => chat::Chatlog {
                channel_id: self.id,
                log_id: res.log_id,
                prev_log_id: Some(res.prev_id),
                sender_id: self.client.user_id,
                send_at: res.send_at,
                chat,
                referer: None,
            },
        }
    }

    /// The request that fetches the chats of this channel logged after the
    /// latest one stored (0 when none is), up to `max`; none when the store
    /// already reaches `max`.
    pub fn sync_request(&self, latest_stored: Option<LogId>, max: LogId) -> (r: Option<SyncChatReq>)
        ensures
            r == sync_request_for(self.id(), latest_stored, max),
            latest_stored is None ==> (r is None <==> 0 >= max),
            latest_stored is None && 0 < max ==> r == Some(
                SyncChatReq { chat_id: self.id(), current: 0, count: 0, max },
            ),
            latest_stored matches Some(id) ==> (r is None <==> id >= max),
            latest_stored matches Some(id) ==> (id < max ==> r == Some(
                SyncChatReq { chat_id: self.id(), current: id, count: 0, max },
            )),
    {
        let current = match latest_stored {
            Some(id) => id,
            None => 0,
        };
        if current >= max {
            None
        } else {
            Some(SyncChatReq { chat_id: self.id, current, count: 0, max })
        }
    }
}

/// The texts of an optional borrowed string.
pub open spec fn text_view(o: Option<&str>) -> Option<Seq<char>> {
    match o {
        Some(s) => Some(s@),
        None => None,
    }
}

/// The texts of an optional owned string.
pub open spec fn string_view(o: Option<String>) -> Option<Seq<char>> {
    match o {
        Some(s) => Some(s@),
        None => None,
    }
}

fn borrow_text(o: &Option<String>) -> (r: Option<&str>)
    ensures
        text_view(r) == string_view(*o),
{
    match o {
        Some(s) => Some(s.as_str()),
        None => None,
    }
}

/// The record kept of a chat written by `user` to `channel`.
pub open spec fn written_chatlog(channel: ChannelId, user: i64, chat: Chat, res: WriteChatRes) -> chat::Chatlog {
    match res.chatlog {
        Some(log) => chatlog_of(log),
        None => chat::Chatlog {
            channel_id: channel,
            log_id: res.log_id,
            prev_log_id: Some(res.prev_id),
            sender_id: user,
            send_at: res.send_at,
            chat,
            referer: None,
        },
    }
}

/// The synchronisation request for a channel whose store holds chats up to
/// `latest_stored`, if it lags behind `max`.
pub open spec fn sync_request_for(channel: ChannelId, latest_stored: Option<LogId>, max: LogId) -> Option<SyncChatReq> {
    let current = match latest_stored {
        Some(id) => id,
        None => 0,
    };
    if current >= max {
        None
    } else {
        Some(SyncChatReq { chat_id: channel, current, count: 0, max })
    }
}

/// How many chats an answer of a synchronisation stream carries.
pub open spec fn answer_len(res: SyncChatRes) -> nat {
    match res.chatlogs {
        Some(logs) => logs@.len(),
        None => 0,
    }
}

/// The number of chats in answers of the given sizes.
pub open spec fn total(sizes: Seq<nat>) -> nat
    decreases sizes.len(),
{
    if sizes.len() == 0 {
        0
    } else {
        total(sizes.drop_last()) + sizes.last()
    }
}

/// Each answer adds exactly its own chats to the number received.
pub proof fn lemma_total_grows_by_answer(sizes: Seq<nat>, size: nat)
    ensures
        total(sizes.push(size)) == total(sizes) + size,
{
    assert(sizes.push(size).drop_last() =~= sizes);
}

/// The progress of one chat synchronisation: how many chats the answers
/// received so far carried.
pub struct ChatSync {
    count: usize,
    sizes: Ghost<Seq<nat>>,
}

impl ChatSync {
    #[verifier::type_invariant]
    spec fn counts_what_was_received(self) -> bool {
        self.count == total(self.sizes@)
    }

    /// The sizes of the answers received so far, in order.
    pub closed spec fn received(self) -> Seq<nat> {
        self.sizes@
    }

    /// A synchronisation that has received nothing yet.
    pub fn new() -> (r: Self)
        ensures
            r.received() == Seq::<nat>::empty(),
    {
        ChatSync { count: 0, sizes: Ghost(Seq::empty()) }
    }

    /// The number of chats received so far.
    pub fn count(&self) -> (r: usize)
        ensures
            r == total(self.received()),
            self.received().len() == 0 ==> r == 0,
    {
        proof { use_type_invariant(self); }
        self.count
    }

    /// Takes one answer of the stream: its size joins those received, and the
    /// chats it carries, in order and as the client keeps them, are what is to
    /// be stored.
    pub fn receive(&mut self, res: SyncChatRes) -> (r: Option<Vec<chat::Chatlog>>)
        requires
            total(old(self).received()) + answer_len(res) <= usize::MAX,
        ensures
            final(self).received() == old(self).received().push(answer_len(res)),
            res.chatlogs is None ==> final(self).received() == old(self).received().push(0),
            res.chatlogs matches Some(logs) ==> final(self).received() == old(self).received().push(
                logs@.len(),
            ),
            res.chatlogs is None ==> r is None,
            res.chatlogs matches Some(logs) ==> r matches Some(kept) && kept@ == logs@.map_values(
                |l| chatlog_of(l),
            ),
    {
        proof { use_type_invariant(&*self); }
        let ghost sizes = self.sizes@.push(answer_len(res));
        proof { lemma_total_grows_by_answer(self.sizes@, answer_len(res)); }
        match res.chatlogs {
            Some(logs) => {
                let n = logs.len();
                let kept = to_client_chatlogs(logs);
                *self = ChatSync { count: self.count + n, sizes: Ghost(sizes) };
                Some(kept)
            },
            None => {
                *self = ChatSync { count: self.count, sizes: Ghost(sizes) };
                None
            },
        }
    }
}

/// The client records of server records, in the same order.
pub fn to_client_chatlogs(logs: Vec<talk_chat::Chatlog>) -> (r: Vec<chat::Chatlog>)
    ensures
        r@ == logs@.map_values(|l| chatlog_of(l)),
{
    let ghost orig = logs@;
    let mut rest = logs;
    let mut reversed: Vec<chat::Chatlog> = Vec::new();
    while rest.len() > 0
        invariant
            rest@ == orig.take(rest@.len() as int),
            rest@.len() <= orig.len(),
            reversed@.len() + rest@.len() == orig.len(),
            forall|i: int| 0 <= i < reversed@.len() ==>
                #[trigger] reversed@[i] == chatlog_of(orig[orig.len() - 1 - i]),
        decreases rest@.len(),
    {
        let log = rest.pop().unwrap();
        reversed.push(chat::Chatlog::from(log));
    }
    let mut out: Vec<chat::Chatlog> = Vec::new();
    while reversed.len() > 0
        invariant
            reversed@.len() + out@.len() == orig.len(),
            forall|i: int| 0 <= i < reversed@.len() ==>
                #[trigger] reversed@[i] == chatlog_of(orig[orig.len() - 1 - i]),
            forall|i: int| 0 <= i < out@.len() ==> #[trigger] out@[i] == chatlog_of(orig[i]),
        decreases reversed@.len(),
    {
        let log = reversed.pop().unwrap();
        out.push(log);
    }
    assert(out@ =~= orig.map_values(|l| chatlog_of(l)));
    out
}

/// A store strictly behind `max` always yields a request, which asks for
/// the chats after exactly the latest stored log id (0 when nothing is
/// stored), for the whole range up to `max`, with no count; a store at or past
/// `max` yields none.
pub proof fn law_sync_request(channel: ChannelId, latest_stored: Option<LogId>, max: LogId)
    ensures
        latest_stored is None ==> (sync_request_for(channel, latest_stored, max) is None <==> 0 >= max),
        latest_stored is None && 0 < max ==> sync_request_for(channel, latest_stored, max) == Some(
            SyncChatReq { chat_id: channel, current: 0, count: 0, max },
        ),
        forall|id: LogId|
            latest_stored == Some(id) ==> (#[trigger] sync_request_for(channel, Some(id), max) is None
                <==> id >= max),
        forall|id: LogId|
            latest_stored == Some(id) && id < max ==> #[trigger] sync_request_for(
                channel,
                Some(id),
                max,
            ) == Some(SyncChatReq { chat_id: channel, current: id, count: 0, max }),
{
}

/// When the server sends no record, the kept record is the sent chat
/// itself, unchanged in type, message id and every piece of content, placed
/// where the server put it and sent by the signed-in user; when it sends one,
/// the kept record is the server's, field for field, its author as sender.
pub proof fn law_written_chatlog(channel: ChannelId, user: i64, chat: Chat, res: WriteChatRes)
    ensures
        res.chatlog is None ==> {
            let r = written_chatlog(channel, user, chat, res);
            &&& r.chat == chat
            &&& r.chat.chat_type == chat.chat_type
            &&& r.chat.message_id == chat.message_id
            &&& r.chat.content.message == chat.content.message
            &&& r.chat.content.attachment == chat.content.attachment
            &&& r.chat.content.supplement == chat.content.supplement
            &&& r.channel_id == channel
            &&& r.log_id == res.log_id
            &&& r.prev_log_id == Some(res.prev_id)
            &&& r.sender_id == user
            &&& r.send_at == res.send_at
            &&& r.referer is None
        },
        res.chatlog matches Some(log) ==> {
            let r = written_chatlog(channel, user, chat, res);
            &&& r.chat == log.chat
            &&& r.channel_id == log.channel_id
            &&& r.log_id == log.log_id
            &&& r.prev_log_id == log.prev_log_id
            &&& r.sender_id == log.author_id
            &&& r.send_at == log.send_at
            &&& r.referer == log.referer
        },
{
}

/// The client's metadata keeps the server's author, update time, revision
/// and content, whatever the metadata's type.
pub proof fn law_meta_fields_kept(meta: LocoChannelMeta)
    ensures
        meta_of(meta).author_id == meta.author_id,
        meta_of(meta).updated_at == meta.updated_at,
        meta_of(meta).revision == meta.revision,
        meta_of(meta).content == meta.content,
        forall|t: i32| #[trigger] meta_of(LocoChannelMeta { meta_type: t, ..meta }) == meta_of(meta),
{
}

/// Direct, memo and group chats are normal; open direct and open group chats
/// are open; a type of any other name is of unknown kind; and only those.
pub proof fn law_channel_kinds(t: ChannelType)
    ensures
        kind_of(ChannelType::DirectChat) == ChannelKind::Normal,
        kind_of(ChannelType::MemoChat) == ChannelKind::Normal,
        kind_of(ChannelType::MultiChat) == ChannelKind::Normal,
        kind_of(ChannelType::OpenDirectChat) == ChannelKind::Open,
        kind_of(ChannelType::OpenMultiChat) == ChannelKind::Open,
        forall|name: String| #[trigger] kind_of(ChannelType::Unknown(name)) == ChannelKind::Unknown,
        (kind_of(t) == ChannelKind::Normal) <==> (t is DirectChat || t is MemoChat || t is MultiChat),
        (kind_of(t) == ChannelKind::Open) <==> (t is OpenDirectChat || t is OpenMultiChat),
        (kind_of(t) == ChannelKind::Unknown) <==> (t is Unknown),
{
}

/// Nothing received counts nothing; each answer adds exactly the number of
/// chats it carries, and an answer without chats adds none.
pub proof fn law_sync_count(sizes: Seq<nat>, res: SyncChatRes)
    ensures
        total(Seq::<nat>::empty()) == 0,
        total(sizes.push(answer_len(res))) == total(sizes) + answer_len(res),
        res.chatlogs is None ==> answer_len(res) == 0,
        res.chatlogs matches Some(logs) ==> answer_len(res) == logs@.len(),
{
    lemma_total_grows_by_answer(sizes, answer_len(res));
}

} // verus!
