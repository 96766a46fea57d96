use vstd::prelude::*;

use super::{BotchlingEvent, EventKind, MAP_NAME_LEN, read_map};
use crate::domain::wire::{le_u16, le_u32, read_u16, read_u32, text_at};
use crate::error::Error;

verus! {

/// A character picked up `amount` of item `item_id` on `map`.
#[derive(Clone, Debug, PartialEq, Eq)]
pub struct TakeItemEvent {
    pub account_id: u32,
    pub char_id: u32,
    pub timestamp: i64,
    pub item_id: u32,
    pub amount: u16,
    pub map: String,
}

/// Layout after the header: `item_id` (u32) at 17, `amount` (u16) at 21, the
/// map name at 23.
pub open spec fn body_matches(b: Seq<u8>, e: TakeItemEvent) -> bool {
    &&& e.item_id == le_u32(b, 17)
    &&& e.amount == le_u16(b, 21)
    &&& e.map@ == text_at(b, 23, MAP_NAME_LEN as int)
}

/// Decodes the body of a take-item record; it needs 39 bytes.
pub fn parse(buf: &[u8], timestamp: i64, account_id: u32, char_id: u32) -> (res: Result<
    BotchlingEvent,
    Error,
>)
    ensures
        buf@.len() < 39 ==> res == Err::<BotchlingEvent, Error>(
            Error::EventTooShort(EventKind::TakeItem),
        ),
        buf@.len() >= 39 ==> (res matches Ok(BotchlingEvent::TakeItem(e)) && e.timestamp
            == timestamp && e.account_id == account_id && e.char_id == char_id && body_matches(
            buf@,
            e,
        )),
{
    if buf.len() < 23 + MAP_NAME_LEN {
        return Err(Error::EventTooShort(EventKind::TakeItem));
    }
    Ok(
        BotchlingEvent::TakeItem(
            TakeItemEvent {
                timestamp,
                account_id,
                char_id,
                item_id: read_u32(buf, 17),
                amount: read_u16(buf, 21),
                map: read_map(buf, 23),
            },
        ),
    )
}

} // verus!
