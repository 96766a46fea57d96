use vstd::prelude::*;

use super::{BotchlingEvent, EventKind, MAP_NAME_LEN, read_map};
use crate::domain::wire::{le_i16, read_i16, text_at};
use crate::error::Error;

verus! {

/// A character walked from one cell to another on `map`.
#[derive(Clone, Debug, PartialEq, Eq)]
pub struct WalkEvent {
    pub account_id: u32,
    pub char_id: u32,
    pub timestamp: i64,
    pub from_x: i16,
    pub from_y: i16,
    pub to_x: i16,
    pub to_y: i16,
    pub map: String,
}

/// Layout after the header: `from_x`, `from_y`, `to_x`, `to_y` (i16) at 17,
/// 19, 21 and 23, the map name at 25.
pub open spec fn body_matches(b: Seq<u8>, e: WalkEvent) -> bool {
    &&& e.from_x == le_i16(b, 17)
    &&& e.from_y == le_i16(b, 19)
    &&& e.to_x == le_i16(b, 21)
    &&& e.to_y == le_i16(b, 23)
    &&& e.map@ == text_at(b, 25, MAP_NAME_LEN as int)
}

/// Decodes the body of a walk record; it needs 41 bytes.
pub fn parse(buf: &[u8], timestamp: i64, account_id: u32, char_id: u32) -> (res: Result<
    BotchlingEvent,
    Error,
>)
    ensures
        buf@.len() < 41 ==> res == Err::<BotchlingEvent, Error>(
            Error::EventTooShort(EventKind::Walk),
        ),
        buf@.len() >= 41 ==> (res matches Ok(BotchlingEvent::Walk(e)) && e.timestamp
            == timestamp && e.account_id == account_id && e.char_id == char_id && body_matches(
            buf@,
            e,
        )),
{
    if buf.len() < 25 + MAP_NAME_LEN {
        return Err(Error::EventTooShort(EventKind::Walk));
    }
    Ok(
        BotchlingEvent::Walk(
            WalkEvent {
                timestamp,
                account_id,
                char_id,
                from_x: read_i16(buf, 17),
                from_y: read_i16(buf, 19),
                to_x: read_i16(buf, 21),
                to_y: read_i16(buf, 23),
                map: read_map(buf, 25),
            },
        ),
    )
}

} // verus!
