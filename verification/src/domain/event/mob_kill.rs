use vstd::prelude::*;

use super::{BotchlingEvent, EventKind, MAP_NAME_LEN, read_map};
use crate::domain::wire::{le_i16, le_u16, read_i16, read_u16, text_at};
use crate::error::Error;

verus! {

/// A character killed monster `mob_id` at (`x`, `y`) on `map`.
#[derive(Clone, Debug, PartialEq, Eq)]
pub struct MobKillEvent {
    pub account_id: u32,
    pub char_id: u32,
    pub timestamp: i64,
    pub mob_id: u16,
    pub x: i16,
    pub y: i16,
    pub map: String,
}

/// Layout after the header: `mob_id` (u16) at 17, `x`, `y` (i16) at 19 and
/// 21, the map name at 23.
pub open spec fn body_matches(b: Seq<u8>, e: MobKillEvent) -> bool {
    &&& e.mob_id == le_u16(b, 17)
    &&& e.x == le_i16(b, 19)
    &&& e.y == le_i16(b, 21)
    &&& e.map@ == text_at(b, 23, MAP_NAME_LEN as int)
}

/// Decodes the body of a mob-kill record; it needs 39 bytes.
pub fn parse(buf: &[u8], timestamp: i64, account_id: u32, char_id: u32) -> (res: Result<
    BotchlingEvent,
    Error,
>)
    ensures
        buf@.len() < 39 ==> res == Err::<BotchlingEvent, Error>(
            Error::EventTooShort(EventKind::MobKill),
        ),
        buf@.len() >= 39 ==> (res matches Ok(BotchlingEvent::MobKill(e)) && e.timestamp
            == timestamp && e.account_id == account_id && e.char_id == char_id && body_matches(
            buf@,
            e,
        )),
{
    if buf.len() < 23 + MAP_NAME_LEN {
        return Err(Error::EventTooShort(EventKind::MobKill));
    }
    Ok(
        BotchlingEvent::MobKill(
            MobKillEvent {
                timestamp,
                account_id,
                char_id,
                mob_id: read_u16(buf, 17),
                x: read_i16(buf, 19),
                y: read_i16(buf, 21),
                map: read_map(buf, 23),
            },
        ),
    )
}

} // verus!
