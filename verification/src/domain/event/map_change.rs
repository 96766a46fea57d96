use vstd::prelude::*;

use super::{BotchlingEvent, EventKind, MAP_NAME_LEN, read_map};
use crate::domain::wire::{le_i16, read_i16, text_at};
use crate::error::Error;

verus! {

/// A character moved from `from_map` to `to_map`, arriving at (`x`, `y`).
#[derive(Clone, Debug, PartialEq, Eq)]
pub struct MapChangeEvent {
    pub account_id: u32,
    pub char_id: u32,
    pub timestamp: i64,
    pub x: i16,
    pub y: i16,
    pub from_map: String,
    pub to_map: String,
}

/// Layout after the header: `x`, `y` (i16) at 17 and 19, the map names at 21
/// and 37.
pub open spec fn body_matches(b: Seq<u8>, e: MapChangeEvent) -> bool {
    &&& e.x == le_i16(b, 17)
    &&& e.y == le_i16(b, 19)
    &&& e.from_map@ == text_at(b, 21, MAP_NAME_LEN as int)
    &&& e.to_map@ == text_at(b, 37, MAP_NAME_LEN as int)
}

/// Decodes the body of a map-change record; it needs 53 bytes.
pub fn parse(buf: &[u8], timestamp: i64, account_id: u32, char_id: u32) -> (res: Result<
    BotchlingEvent,
    Error,
>)
    ensures
        buf@.len() < 53 ==> res == Err::<BotchlingEvent, Error>(
            Error::EventTooShort(EventKind::MapChange),
        ),
        buf@.len() >= 53 ==> (res matches Ok(BotchlingEvent::MapChange(e)) && e.timestamp
            == timestamp && e.account_id == account_id && e.char_id == char_id && body_matches(
            buf@,
            e,
        )),
{
    if buf.len() < 37 + MAP_NAME_LEN {
        return Err(Error::EventTooShort(EventKind::MapChange));
    }
    Ok(
        BotchlingEvent::MapChange(
            MapChangeEvent {
                timestamp,
                account_id,
                char_id,
                x: read_i16(buf, 17),
                y: read_i16(buf, 19),
                from_map: read_map(buf, 21),
                to_map: read_map(buf, 37),
            },
        ),
    )
}

} // verus!
