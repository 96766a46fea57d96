use vstd::prelude::*;

use super::{BotchlingEvent, EventKind};
use crate::error::Error;

verus! {

/// A character left the game.
#[derive(Clone, Debug, PartialEq, Eq)]
pub struct LogoutEvent {
    pub account_id: u32,
    pub char_id: u32,
    pub timestamp: i64,
}

/// Builds a logout event from the header fields; the record has no body.
pub fn parse(_buf: &[u8], timestamp: i64, account_id: u32, char_id: u32) -> (res: Result<
    BotchlingEvent,
    Error,
>)
    ensures
        res matches Ok(BotchlingEvent::Logout(e)) && e.timestamp == timestamp && e.account_id
            == account_id && e.char_id == char_id,
{
    Ok(BotchlingEvent::Logout(LogoutEvent { timestamp, account_id, char_id }))
}

} // verus!
