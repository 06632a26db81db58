use vstd::prelude::*;

use crate::talk_chat;
use crate::talk_chat::Chat;

verus! {

/// Position of a chat in its channel's log.
pub type LogId = i64;

/// A chat as the client keeps it: the server's record, with the author
/// named as the sender.
#[derive(Debug, Clone, PartialEq, Eq)]
pub struct Chatlog {
    pub channel_id: i64,
    pub log_id: LogId,
    pub prev_log_id: Option<LogId>,
    pub sender_id: i64,
    pub send_at: i64,
    pub chat: Chat,
    pub referer: Option<i32>,
}

/// The client record of a server record: every field carried over, the
/// author becoming the sender.
pub open spec fn chatlog_of(log: talk_chat::Chatlog) -> Chatlog {
    Chatlog {
        channel_id: log.channel_id,
        log_id: log.log_id,
        prev_log_id: log.prev_log_id,
        sender_id: log.author_id,
        send_at: log.send_at,
        chat: log.chat,
        referer: log.referer,
    }
}

impl From<talk_chat::Chatlog> for Chatlog {
    fn from(log: talk_chat::Chatlog) -> (r: Self)
        ensures
            r.channel_id == log.channel_id,
            r.log_id == log.log_id,
            r.prev_log_id == log.prev_log_id,
            r.sender_id == log.author_id,
            r.send_at == log.send_at,
            r.chat == log.chat,
            r.referer == log.referer,
    {
        Chatlog {
            channel_id: log.channel_id,
            log_id: log.log_id,
            prev_log_id: log.prev_log_id,
            sender_id: log.author_id,
            send_at: log.send_at,
            chat: log.chat,
            referer: log.referer,
        }
    }
}

impl vstd::std_specs::convert::FromSpecImpl<talk_chat::Chatlog> for Chatlog {
    open spec fn obeys_from_spec() -> bool {
        true
    }

    open spec fn from_spec(log: talk_chat::Chatlog) -> Chatlog {
        chatlog_of(log)
    }
}

/// The client's record carries the server's chat unchanged, so a chat the
/// server marks deleted stays deleted; every other field is carried over,
/// the author becoming the sender.
pub proof fn law_chatlog_fields_kept(log: talk_chat::Chatlog)
    ensures
        chatlog_of(log).chat == log.chat,
        chatlog_of(log).chat.chat_type == log.chat.chat_type,
        chatlog_of(log).chat.chat_type.is_deleted() == log.chat.chat_type.is_deleted(),
        chatlog_of(log).chat.content == log.chat.content,
        chatlog_of(log).chat.message_id == log.chat.message_id,
        chatlog_of(log).channel_id == log.channel_id,
        chatlog_of(log).log_id == log.log_id,
        chatlog_of(log).prev_log_id == log.prev_log_id,
        chatlog_of(log).sender_id == log.author_id,
        chatlog_of(log).send_at == log.send_at,
        chatlog_of(log).referer == log.referer,
{
}

} // verus!
