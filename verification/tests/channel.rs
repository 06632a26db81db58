use headless_talk::channel::{
    ChannelKind, ChannelMeta, ChannelType, ChatSync, ClientChannel, HeadlessTalk, LocoChannelMeta,
};
use headless_talk::chat;
use headless_talk::session::{SyncChatReq, SyncChatRes, WriteChatRes};
use headless_talk::talk_chat::{Chat, ChatContent, ChatType, Chatlog};

fn text_chat(message_id: i64, text: &str) -> Chat {
    Chat {
        chat_type: ChatType(ChatType::TEXT),
        content: ChatContent {
            message: Some(text.to_string()),
            attachment: None,
            supplement: Some("{}".to_string()),
        },
        message_id,
    }
}

fn server_log(log_id: i64, author_id: i64) -> Chatlog {
    Chatlog {
        log_id,
        prev_log_id: Some(log_id - 1),
        channel_id: 42,
        author_id,
        send_at: 1_700_000_000,
        chat: text_chat(log_id * 10, "hi"),
        referer: Some(3),
    }
}

#[test]
fn channel_kinds() {
    assert_eq!(ChannelType::DirectChat.kind(), ChannelKind::Normal);
    assert_eq!(ChannelType::MemoChat.kind(), ChannelKind::Normal);
    assert_eq!(ChannelType::MultiChat.kind(), ChannelKind::Normal);
    assert_eq!(ChannelType::OpenDirectChat.kind(), ChannelKind::Open);
    assert_eq!(ChannelType::OpenMultiChat.kind(), ChannelKind::Open);
    assert_eq!(ChannelType::Unknown("PlusChat".to_string()).kind(), ChannelKind::Unknown);
}

#[test]
fn channel_meta_from_server_meta() {
    let meta = ChannelMeta::from(LocoChannelMeta {
        meta_type: 3,
        revision: 7,
        author_id: 11,
        updated_at: 1234,
        content: "notice".to_string(),
    });
    assert_eq!(
        meta,
        ChannelMeta { author_id: 11, updated_at: 1234, revision: 7, content: "notice".to_string() }
    );
}

#[test]
fn chatlog_from_server_log_names_author_as_sender() {
    let log = chat::Chatlog::from(server_log(5, 77));
    assert_eq!(log.sender_id, 77);
    assert_eq!(log.channel_id, 42);
    assert_eq!(log.log_id, 5);
    assert_eq!(log.prev_log_id, Some(4));
    assert_eq!(log.send_at, 1_700_000_000);
    assert_eq!(log.chat, text_chat(50, "hi"));
    assert_eq!(log.referer, Some(3));
}

#[test]
fn channel_handle_keeps_its_id() {
    let talk = HeadlessTalk { user_id: 9 };
    let channel = ClientChannel::new(1234, &talk);
    assert_eq!(channel.channel_id(), 1234);
}

#[test]
fn write_request_copies_the_chat() {
    let talk = HeadlessTalk { user_id: 9 };
    let channel = ClientChannel::new(42, &talk);
    let chat = text_chat(555, "hello");
    let req = channel.write_chat_request(&chat, true);
    assert_eq!(req.chat_id, 42);
    assert_eq!(req.chat_type, 1);
    assert_eq!(req.msg_id, 555);
    assert_eq!(req.message, Some("hello"));
    assert!(req.no_seen);
    assert_eq!(req.attachment, None);
    assert_eq!(req.supplement, Some("{}"));
}

#[test]
fn logged_chat_without_server_record() {
    let talk = HeadlessTalk { user_id: 9 };
    let channel = ClientChannel::new(42, &talk);
    let res = WriteChatRes { log_id: 100, prev_id: 99, send_at: 5000, chatlog: None };
    let log = channel.logged_chatlog(text_chat(1, "a"), res);
    assert_eq!(
        log,
        chat::Chatlog {
            channel_id: 42,
            log_id: 100,
            prev_log_id: Some(99),
            sender_id: 9,
            send_at: 5000,
            chat: text_chat(1, "a"),
            referer: None,
        }
    );
}

#[test]
fn logged_chat_with_server_record() {
    let talk = HeadlessTalk { user_id: 9 };
    let channel = ClientChannel::new(42, &talk);
    let res = WriteChatRes { log_id: 100, prev_id: 99, send_at: 5000, chatlog: Some(server_log(8, 77)) };
    let log = channel.logged_chatlog(text_chat(1, "a"), res);
    assert_eq!(log, chat::Chatlog::from(server_log(8, 77)));
    assert_eq!(log.sender_id, 77);
}

#[test]
fn sync_request_when_behind() {
    let talk = HeadlessTalk { user_id: 9 };
    let channel = ClientChannel::new(42, &talk);
    assert_eq!(
        channel.sync_request(Some(10), 20),
        Some(SyncChatReq { chat_id: 42, current: 10, count: 0, max: 20 })
    );
    assert_eq!(
        channel.sync_request(None, 20),
        Some(SyncChatReq { chat_id: 42, current: 0, count: 0, max: 20 })
    );
}

#[test]
fn no_sync_request_when_up_to_date() {
    let talk = HeadlessTalk { user_id: 9 };
    let channel = ClientChannel::new(42, &talk);
    assert_eq!(channel.sync_request(Some(20), 20), None);
    assert_eq!(channel.sync_request(Some(21), 20), None);
    assert_eq!(channel.sync_request(None, 0), None);
    assert_eq!(channel.sync_request(None, -5), None);
}

#[test]
fn sync_counts_every_chat_received() {
    let mut sync = ChatSync::new();
    assert_eq!(sync.count(), 0);
    let kept = sync.receive(SyncChatRes { chatlogs: Some(vec![server_log(1, 5), server_log(2, 6)]) });
    assert_eq!(
        kept,
        Some(vec![chat::Chatlog::from(server_log(1, 5)), chat::Chatlog::from(server_log(2, 6))])
    );
    assert_eq!(sync.count(), 2);
    assert_eq!(sync.receive(SyncChatRes { chatlogs: None }), None);
    assert_eq!(sync.count(), 2);
    let kept = sync.receive(SyncChatRes { chatlogs: Some(vec![server_log(3, 7)]) });
    assert_eq!(kept, Some(vec![chat::Chatlog::from(server_log(3, 7))]));
    assert_eq!(sync.count(), 3);
    assert_eq!(sync.receive(SyncChatRes { chatlogs: Some(vec![]) }), Some(vec![]));
    assert_eq!(sync.count(), 3);
}
