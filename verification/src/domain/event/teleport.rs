use vstd::prelude::*;

use super::{BotchlingEvent, EventKind, MAP_NAME_LEN, read_map};
use crate::domain::wire::{text_at};
use crate::error::Error;

verus! {

/// A character was teleported onto `map`.
#[derive(Clone, Debug, PartialEq, Eq)]
pub struct TeleportEvent {
    pub account_id: u32,
    pub char_id: u32,
    pub timestamp: i64,
    pub map: String,
}

/// Layout after the header, as assumed here (the game server's teleport
/// record is not documented alongside the other records): the destination
/// map name at 17, so the record needs 33 bytes.
pub open spec fn body_matches(b: Seq<u8>, e: TeleportEvent) -> bool {
    e.map@ == text_at(b, 17, MAP_NAME_LEN as int)
}

/// Decodes the body of a teleport record under the assumed layout; it needs
/// 33 bytes.
pub fn parse(buf: &[u8], timestamp: i64, account_id: u32, char_id: u32) -> (res: Result<
    BotchlingEvent,
    Error,
>)
    ensures
        buf@.len() < 33 ==> res == Err::<BotchlingEvent, Error>(
            Error::EventTooShort(EventKind::Teleport),
        ),
        buf@.len() >= 33 ==> (res matches Ok(BotchlingEvent::Teleport(e)) && e.timestamp
            == timestamp && e.account_id == account_id && e.char_id == char_id && body_matches(
            buf@,
            e,
        )),
{
    if buf.len() < 17 + MAP_NAME_LEN {
        return Err(Error::EventTooShort(EventKind::Teleport));
    }
    Ok(
        BotchlingEvent::Teleport(
            TeleportEvent {
                timestamp,
                account_id,
                char_id,
                map: read_map(buf, 17),
            },
        ),
    )
}

} // verus!
