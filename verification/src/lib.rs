//! Chat records, chat types with their deletion flag, channel kinds and
//! the decisions a chat client takes when it sends and synchronises chats.

pub mod talk_chat;
pub mod chat;
pub mod channel;
pub mod session;
pub mod account;
