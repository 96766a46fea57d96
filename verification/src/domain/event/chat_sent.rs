use vstd::prelude::*;

use super::{BotchlingEvent, EventKind, CHAT_SIZE_MAX, MAP_NAME_LEN, read_map};
use crate::domain::wire::{read_text, text_at};
use crate::error::Error;

verus! {

/// A character said `message` on `map`.
#[derive(Clone, Debug, PartialEq, Eq)]
pub struct ChatSentEvent {
    pub account_id: u32,
    pub char_id: u32,
    pub timestamp: i64,
    pub message: String,
    pub map: String,
}

/// Layout after the header: the 256-byte message field at 17, the map name
/// at 273.
pub open spec fn body_matches(b: Seq<u8>, e: ChatSentEvent) -> bool {
    &&& e.message@ == text_at(b, 17, CHAT_SIZE_MAX as int)
    &&& e.map@ == text_at(b, 273, MAP_NAME_LEN as int)
}

/// Decodes the body of a chat record; it needs 289 bytes.
pub fn parse(buf: &[u8], timestamp: i64, account_id: u32, char_id: u32) -> (res: Result<
    BotchlingEvent,
    Error,
>)
    ensures
        buf@.len() < 289 ==> res == Err::<BotchlingEvent, Error>(
            Error::EventTooShort(EventKind::ChatSent),
        ),
        buf@.len() >= 289 ==> (res matches Ok(BotchlingEvent::ChatSent(e)) && e.timestamp
            == timestamp && e.account_id == account_id && e.char_id == char_id && body_matches(
            buf@,
            e,
        )),
{
    if buf.len() < 273 + MAP_NAME_LEN {
        return Err(Error::EventTooShort(EventKind::ChatSent));
    }
    Ok(
        BotchlingEvent::ChatSent(
            ChatSentEvent {
                timestamp,
                account_id,
                char_id,
                message: read_text(buf, 17, CHAT_SIZE_MAX),
                map: read_map(buf, 273),
            },
        ),
    )
}

} // verus!
