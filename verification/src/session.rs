use vstd::prelude::*;

use crate::talk_chat::Chatlog;

verus! {

/// Request that writes one chat to a channel; the texts are borrowed from
/// the chat being sent.
#[derive(Debug, Clone)]
pub struct WriteChatReq<'a> {
    pub chat_id: i64,
    pub chat_type: i32,
    pub msg_id: i64,
    pub message: Option<&'a str>,
    pub no_seen: bool,
    pub attachment: Option<&'a str>,
    pub supplement: Option<&'a str>,
}

/// The server's answer to a write: where the chat was logged and, when the
/// server sends it, the full record.
#[derive(Debug, Clone)]
pub struct WriteChatRes {
    pub log_id: i64,
    pub prev_id: i64,
    pub send_at: i64,
    pub chatlog: Option<Chatlog>,
}

/// Request for the chats of a channel logged after `current`, up to `max`.
#[derive(Debug, Clone, Copy, PartialEq, Eq, Structural)]
pub struct SyncChatReq {
    pub chat_id: i64,
    pub current: i64,
    pub count: i32,
    pub max: i64,
}

/// One answer of a chat synchronisation stream.
#[derive(Debug, Clone)]
pub struct SyncChatRes {
    pub chatlogs: Option<Vec<Chatlog>>,
}

/// The outcome a reply's status code decides for a command with a single
/// successful status: status 0 means the reply's body is to be decoded, any
/// other status is returned as the error.
pub fn reply_status(status: i32) -> (r: Result<(), i32>)
    ensures
        r is Ok <==> status == 0,
        r matches Err(code) ==> code == status,
{
    if status == 0 {
        Ok(())
    } else {
        Err(status)
    }
}

} // verus!
