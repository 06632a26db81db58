use vstd::prelude::*;

verus! {

/// A chat record as the server logs it.
#[derive(Debug, Clone, PartialEq, Eq)]
pub struct Chatlog {
    pub log_id: i64,
    pub prev_log_id: Option<i64>,
    pub channel_id: i64,
    pub author_id: i64,
    pub send_at: i64,
    pub chat: Chat,
    pub referer: Option<i32>,
}

/// The part of a chat its sender decides: type, content and message id.
#[derive(Debug, Clone, PartialEq, Eq)]
pub struct Chat {
    pub chat_type: ChatType,
    pub content: ChatContent,
    pub message_id: i64,
}

/// Optional text, attachment and supplement of a chat.
#[derive(Debug, Clone, PartialEq, Eq)]
pub struct ChatContent {
    pub message: Option<String>,
    pub attachment: Option<String>,
    pub supplement: Option<String>,
}

impl Default for ChatContent {
    /// Content with neither message, attachment nor supplement.
    fn default() -> (r: Self)
        ensures
            r.message is None,
            r.attachment is None,
            r.supplement is None,
    {
        ChatContent { message: None, attachment: None, supplement: None }
    }
}

/// Numeric chat type as it travels on the wire. Bit `DELETED_BIT` marks a
/// deleted chat; the other bits name the kind of chat.
#[derive(Debug, Clone, Copy, PartialEq, Eq, Structural, Hash)]
pub struct ChatType(pub i32);

/// Raw codes of the known chat types: `ChatType(ChatType::TEXT)` is a text chat.
impl ChatType {
    pub const FEED: i32 = 0;
    pub const TEXT: i32 = 1;
    pub const PHOTO: i32 = 2;
    pub const VIDEO: i32 = 3;
    pub const CONTACT: i32 = 4;
    pub const AUDIO: i32 = 5;
    pub const DITEMEMOTICON: i32 = 6;
    pub const DITEMGIFT: i32 = 7;
    pub const DITEMIMG: i32 = 8;
    pub const KAKAOLINKV1: i32 = 9;
    pub const AVATAR: i32 = 11;
    pub const STICKER: i32 = 12;
    pub const SCHEDULE: i32 = 13;
    pub const VOTE: i32 = 14;
    pub const LOTTERY: i32 = 15;
    pub const MAP: i32 = 16;
    pub const PROFILE: i32 = 17;
    pub const FILE: i32 = 18;
    pub const STICKERANI: i32 = 20;
    pub const NUDGE: i32 = 21;
    pub const ACTIONCON: i32 = 22;
    pub const SEARCH: i32 = 23;
    pub const POST: i32 = 24;
    pub const STICKERGIF: i32 = 25;
    pub const REPLY: i32 = 26;
    pub const MULTIPHOTO: i32 = 27;
    pub const VOIP: i32 = 51;
    pub const LIVETALK: i32 = 52;
    pub const CUSTOM: i32 = 71;
    pub const ALIM: i32 = 72;
    pub const PLUSFRIEND: i32 = 81;
    pub const PLUSEVENT: i32 = 82;
    pub const PLUSFRIENDVIRAL: i32 = 83;
    pub const OPEN_SCHEDULE: i32 = 96;
    pub const OPEN_VOTE: i32 = 97;
    pub const OPEN_POST: i32 = 98;

    pub const DELETED_BIT: i32 = 14;
    pub const DELETED_MASK: i32 = 1 << Self::DELETED_BIT;

    /// The mask is the single bit at `DELETED_BIT`.
    pub proof fn lemma_mask_value()
        ensures
            Self::DELETED_MASK == 0x4000i32,
    {
        assert((1i32 << 14i32) == 0x4000i32) by (bit_vector);
    }

    /// Whether the deletion bit is set in the raw value.
    pub open spec fn is_deleted(self) -> bool {
        self.0 & 0x4000i32 != 0
    }

    /// The type with the deletion bit cleared.
    pub open spec fn original(self) -> ChatType {
        ChatType(self.0 & !0x4000i32)
    }

    /// The type with the deletion bit set.
    pub open spec fn marked_deleted(self) -> ChatType {
        ChatType(self.0 | 0x4000i32)
    }

    /// The type with the deletion bit cleared; every other bit is kept, so
    /// the raw value drops by the bit's weight exactly when the bit was set.
    pub fn into_original(self) -> (r: Self)
        ensures
            r == self.original(),
            !r.is_deleted(),
            r.0 == (if self.is_deleted() { self.0 - 0x4000 } else { self.0 as int }),
    {
        let v = self.0;
        proof { Self::lemma_mask_value(); }
        assert(!((v & !0x4000i32) & 0x4000i32 != 0)) by (bit_vector);
        assert((v & 0x4000i32 != 0) ==> (v & !0x4000i32) == v - 0x4000) by (bit_vector);
        assert(!(v & 0x4000i32 != 0) ==> (v & !0x4000i32) == v) by (bit_vector);
        ChatType(v & !Self::DELETED_MASK)
    }

    /// The type with the deletion bit set; every other bit is kept, so the
    /// raw value grows by the bit's weight exactly when the bit was clear.
    pub fn into_deleted(self) -> (r: Self)
        ensures
            r == self.marked_deleted(),
            r.is_deleted(),
            r.0 == (if self.is_deleted() { self.0 as int } else { self.0 + 0x4000 }),
    {
        let v = self.0;
        proof { Self::lemma_mask_value(); }
        assert((v | 0x4000i32) & 0x4000i32 != 0) by (bit_vector);
        assert((v & 0x4000i32 != 0) ==> (v | 0x4000i32) == v) by (bit_vector);
        assert(!(v & 0x4000i32 != 0) ==> (v | 0x4000i32) == v + 0x4000) by (bit_vector);
        ChatType(v | Self::DELETED_MASK)
    }

    /// Whether the chat this type belongs to was deleted.
    pub fn deleted(self) -> (r: bool)
        ensures
            r == self.is_deleted(),
    {
        proof { Self::lemma_mask_value(); }
        (self.0 & Self::DELETED_MASK) != 0
    }
}

/// Restoring a deleted type gives back the type it was made from, with its
/// deletion bit cleared; on a type that was never deleted it is the type itself.
pub proof fn lemma_restore_after_delete(t: ChatType)
    ensures
        t.marked_deleted().original() == t.original(),
        !t.is_deleted() ==> t.marked_deleted().original() == t,
{
    let v = t.0;
    assert(((v | 0x4000i32) & !0x4000i32) == (v & !0x4000i32)) by (bit_vector);
    assert(!(v & 0x4000i32 != 0) ==> (v | 0x4000i32) & !0x4000i32 == v) by (bit_vector);
}

/// Deleting a restored type gives the same type as deleting it directly.
pub proof fn lemma_delete_after_restore(t: ChatType)
    ensures
        t.original().marked_deleted() == t.marked_deleted(),
{
    let v = t.0;
    assert(((v & !0x4000i32) | 0x4000i32) == (v | 0x4000i32)) by (bit_vector);
}

/// Restoring twice is restoring once; deleting twice is deleting once.
pub proof fn lemma_idempotent(t: ChatType)
    ensures
        t.original().original() == t.original(),
        t.marked_deleted().marked_deleted() == t.marked_deleted(),
{
    let v = t.0;
    assert(((v & !0x4000i32) & !0x4000i32) == (v & !0x4000i32)) by (bit_vector);
    assert(((v | 0x4000i32) | 0x4000i32) == (v | 0x4000i32)) by (bit_vector);
}

/// Restoring leaves a type that was not deleted unchanged, and deleting
/// leaves a type that was already deleted unchanged.
pub proof fn lemma_fixed_points(t: ChatType)
    ensures
        !t.is_deleted() ==> t.original() == t,
        t.is_deleted() ==> t.marked_deleted() == t,
{
    let v = t.0;
    assert(!(v & 0x4000i32 != 0) ==> (v & !0x4000i32) == v) by (bit_vector);
    assert((v & 0x4000i32 != 0) ==> (v | 0x4000i32) == v) by (bit_vector);
}

/// Deleting and restoring touch nothing but the deletion bit: two types that
/// agree outside it have the same restored form, and a type is determined by
/// its restored form and its deletion bit.
pub proof fn lemma_only_deletion_bit(a: ChatType, b: ChatType)
    ensures
        (a.original() == b.original() && a.is_deleted() == b.is_deleted()) <==> a == b,
{
    let x = a.0;
    let y = b.0;
    assert(((x & !0x4000i32) == (y & !0x4000i32) && ((x & 0x4000i32 != 0) == (y & 0x4000i32 != 0)))
        <==> x == y) by (bit_vector);
}

} // verus!
