use vstd::prelude::*;

use super::{BotchlingEvent, EventKind, MAP_NAME_LEN, read_map};
use crate::domain::wire::{le_u32, read_u32, text_at};
use crate::error::Error;

verus! {

/// A character entered the game from `ip` on `map`.
#[derive(Clone, Debug, PartialEq, Eq)]
pub struct LoginEvent {
    pub account_id: u32,
    pub char_id: u32,
    pub timestamp: i64,
    pub ip: u32,
    pub map: String,
}

/// Layout after the header: the IPv4 address (u32) at 17, the map name at 21.
pub open spec fn body_matches(b: Seq<u8>, e: LoginEvent) -> bool {
    &&& e.ip == le_u32(b, 17)
    &&& e.map@ == text_at(b, 21, MAP_NAME_LEN as int)
}

/// Decodes the body of a login record; it needs 37 bytes.
pub fn parse(buf: &[u8], timestamp: i64, account_id: u32, char_id: u32) -> (res: Result<
    BotchlingEvent,
    Error,
>)
    ensures
        buf@.len() < 37 ==> res == Err::<BotchlingEvent, Error>(
            Error::EventTooShort(EventKind::Login),
        ),
        buf@.len() >= 37 ==> (res matches Ok(BotchlingEvent::Login(e)) && e.timestamp
            == timestamp && e.account_id == account_id && e.char_id == char_id && body_matches(
            buf@,
            e,
        )),
{
    if buf.len() < 21 + MAP_NAME_LEN {
        return Err(Error::EventTooShort(EventKind::Login));
    }
    Ok(
        BotchlingEvent::Login(
            LoginEvent {
                timestamp,
                account_id,
                char_id,
                ip: read_u32(buf, 17),
                map: read_map(buf, 21),
            },
        ),
    )
}

} // verus!
