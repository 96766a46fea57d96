pub mod chat_sent;
pub mod login;
pub mod logout;
pub mod map_change;
pub mod mob_kill;
pub mod take_item;
pub mod teleport;
pub mod walk;

pub use chat_sent::ChatSentEvent;
pub use login::LoginEvent;
pub use logout::LogoutEvent;
pub use map_change::MapChangeEvent;
pub use mob_kill::MobKillEvent;
pub use take_item::TakeItemEvent;
pub use teleport::TeleportEvent;
pub use walk::WalkEvent;

use vstd::prelude::*;

use crate::domain::wire::{le_i64, le_u32, read_i64, read_text, read_u32, text_at};
use crate::error::Error;

verus! {

/// Width of a NUL-padded map name field.
pub const MAP_NAME_LEN: usize = 16;

/// Width of the NUL-padded chat message field.
pub const CHAT_SIZE_MAX: usize = 256;

/// Size of the header that every record starts with: a one-byte tag, the
/// timestamp (i64), the account id (u32) and the character id (u32).
pub const HEADER_SIZE: usize = 17;

/// The kinds of event, each with the tag that announces it in a record.
#[derive(Clone, Copy, Debug, PartialEq, Eq, Structural)]
pub enum EventKind {
    Login,
    Logout,
    Walk,
    Teleport,
    MapChange,
    MobKill,
    TakeItem,
    ChatSent,
}

/// The event kind that a record tag announces.
pub open spec fn kind_of_tag(tag: u8) -> Option<EventKind> {
    if tag == 1 {
        Some(EventKind::Login)
    } else if tag == 2 {
        Some(EventKind::Logout)
    } else if tag == 3 {
        Some(EventKind::Walk)
    } else if tag == 4 {
        Some(EventKind::Teleport)
    } else if tag == 5 {
        Some(EventKind::MapChange)
    } else if tag == 6 {
        Some(EventKind::MobKill)
    } else if tag == 7 {
        Some(EventKind::TakeItem)
    } else if tag == 8 {
        Some(EventKind::ChatSent)
    } else {
        None
    }
}

impl EventKind {
    /// The number of bytes a record of this kind needs.
    pub open spec fn min_len(self) -> nat {
        match self {
            EventKind::Login => 37,
            EventKind::Logout => 17,
            EventKind::Walk => 41,
            EventKind::Teleport => 33,
            EventKind::MapChange => 53,
            EventKind::MobKill => 39,
            EventKind::TakeItem => 39,
            EventKind::ChatSent => 289,
        }
    }

    /// The tag that announces this kind in a record.
    pub open spec fn tag(self) -> u8 {
        match self {
            EventKind::Login => 1,
            EventKind::Logout => 2,
            EventKind::Walk => 3,
            EventKind::Teleport => 4,
            EventKind::MapChange => 5,
            EventKind::MobKill => 6,
            EventKind::TakeItem => 7,
            EventKind::ChatSent => 8,
        }
    }
}

/// An event of the game server, decoded from one record.
#[derive(Clone, Debug, PartialEq, Eq)]
pub enum BotchlingEvent {
    Login(LoginEvent),
    Logout(LogoutEvent),
    Walk(WalkEvent),
    Teleport(TeleportEvent),
    MapChange(MapChangeEvent),
    MobKill(MobKillEvent),
    TakeItem(TakeItemEvent),
    ChatSent(ChatSentEvent),
}

impl BotchlingEvent {
    pub open spec fn kind(self) -> EventKind {
        match self {
            BotchlingEvent::Login(_) => EventKind::Login,
            BotchlingEvent::Logout(_) => EventKind::Logout,
            BotchlingEvent::Walk(_) => EventKind::Walk,
            BotchlingEvent::Teleport(_) => EventKind::Teleport,
            BotchlingEvent::MapChange(_) => EventKind::MapChange,
            BotchlingEvent::MobKill(_) => EventKind::MobKill,
            BotchlingEvent::TakeItem(_) => EventKind::TakeItem,
            BotchlingEvent::ChatSent(_) => EventKind::ChatSent,
        }
    }

    /// The header fields `(timestamp, account_id, char_id)` of the event.
    pub open spec fn header(self) -> (i64, u32, u32) {
        match self {
            BotchlingEvent::Login(e) => (e.timestamp, e.account_id, e.char_id),
            BotchlingEvent::Logout(e) => (e.timestamp, e.account_id, e.char_id),
            BotchlingEvent::Walk(e) => (e.timestamp, e.account_id, e.char_id),
            BotchlingEvent::Teleport(e) => (e.timestamp, e.account_id, e.char_id),
            BotchlingEvent::MapChange(e) => (e.timestamp, e.account_id, e.char_id),
            BotchlingEvent::MobKill(e) => (e.timestamp, e.account_id, e.char_id),
            BotchlingEvent::TakeItem(e) => (e.timestamp, e.account_id, e.char_id),
            BotchlingEvent::ChatSent(e) => (e.timestamp, e.account_id, e.char_id),
        }
    }

    /// The fields after the header agree with the record `b`.
    pub open spec fn body_matches(self, b: Seq<u8>) -> bool {
        match self {
            BotchlingEvent::Login(e) => login::body_matches(b, e),
            BotchlingEvent::Logout(e) => true,
            BotchlingEvent::Walk(e) => walk::body_matches(b, e),
            BotchlingEvent::Teleport(e) => teleport::body_matches(b, e),
            BotchlingEvent::MapChange(e) => map_change::body_matches(b, e),
            BotchlingEvent::MobKill(e) => mob_kill::body_matches(b, e),
            BotchlingEvent::TakeItem(e) => take_item::body_matches(b, e),
            BotchlingEvent::ChatSent(e) => chat_sent::body_matches(b, e),
        }
    }

    /// The event is the decoding of record `b`: its kind is the one the tag
    /// announces, its header fields are the record's, and so are the rest.
    pub open spec fn decodes(self, b: Seq<u8>) -> bool {
        &&& kind_of_tag(b[0]) == Some(self.kind())
        &&& self.header() == (le_i64(b, 1) as i64, le_u32(b, 9) as u32, le_u32(b, 13) as u32)
        &&& self.body_matches(b)
    }

    /// The character the event is about.
    pub fn char_id(&self) -> (id: u32)
        ensures
            id == self.header().2,
    {
        match self {
            BotchlingEvent::Login(e) => e.char_id,
            BotchlingEvent::Logout(e) => e.char_id,
            BotchlingEvent::Walk(e) => e.char_id,
            BotchlingEvent::Teleport(e) => e.char_id,
            BotchlingEvent::MapChange(e) => e.char_id,
            BotchlingEvent::MobKill(e) => e.char_id,
            BotchlingEvent::TakeItem(e) => e.char_id,
            BotchlingEvent::ChatSent(e) => e.char_id,
        }
    }

    /// When the event happened.
    pub fn timestamp(&self) -> (t: i64)
        ensures
            t == self.header().0,
    {
        match self {
            BotchlingEvent::Login(e) => e.timestamp,
            BotchlingEvent::Logout(e) => e.timestamp,
            BotchlingEvent::Walk(e) => e.timestamp,
            BotchlingEvent::Teleport(e) => e.timestamp,
            BotchlingEvent::MapChange(e) => e.timestamp,
            BotchlingEvent::MobKill(e) => e.timestamp,
            BotchlingEvent::TakeItem(e) => e.timestamp,
            BotchlingEvent::ChatSent(e) => e.timestamp,
        }
    }
}

/// Why record `b` cannot be decoded, if it cannot: it is shorter than the
/// header, its tag is unknown, or it is shorter than its event's layout.
pub open spec fn record_error(b: Seq<u8>) -> Option<Error> {
    if b.len() < HEADER_SIZE {
        Some(Error::HeaderTooShort)
    } else {
        match kind_of_tag(b[0]) {
            None => Some(Error::UnknownEventType),
            Some(k) => if b.len() < k.min_len() {
                Some(Error::EventTooShort(k))
            } else {
                None
            },
        }
    }
}

/// The map name held in the 16-byte field at `offset`: the bytes before the
/// first NUL, decoded as UTF-8 with invalid sequences replaced.
pub fn read_map(buf: &[u8], offset: usize) -> (map: String)
    requires
        offset + MAP_NAME_LEN <= buf.len(),
    ensures
        map@ == text_at(buf@, offset as int, MAP_NAME_LEN as int),
        map@.len() <= MAP_NAME_LEN,
        forall|j: int| 0 <= j < map@.len() ==> map@[j] != '\0',
{
    read_text(buf, offset, MAP_NAME_LEN)
}

impl BotchlingEvent {
    /// Decodes one record: the header, then the event that its tag names.
    pub fn try_from(buf: &[u8]) -> (res: Result<BotchlingEvent, Error>)
        ensures
            match res {
                Ok(ev) => record_error(buf@) is None && ev.decodes(buf@),
                Err(e) => record_error(buf@) == Some(e),
            },
    {
        if buf.len() < HEADER_SIZE {
            return Err(Error::HeaderTooShort);
        }
        let event_type = buf[0];
        let timestamp = read_i64(buf, 1);
        let account_id = read_u32(buf, 9);
        let char_id = read_u32(buf, 13);

        if event_type == 1 {
            login::parse(buf, timestamp, account_id, char_id)
        } else if event_type == 2 {
            logout::parse(buf, timestamp, account_id, char_id)
        } else if event_type == 3 {
            walk::parse(buf, timestamp, account_id, char_id)
        } else if event_type == 4 {
            teleport::parse(buf, timestamp, account_id, char_id)
        } else if event_type == 5 {
            map_change::parse(buf, timestamp, account_id, char_id)
        } else if event_type == 6 {
            mob_kill::parse(buf, timestamp, account_id, char_id)
        } else if event_type == 7 {
            take_item::parse(buf, timestamp, account_id, char_id)
        } else if event_type == 8 {
            chat_sent::parse(buf, timestamp, account_id, char_id)
        } else {
            Err(Error::UnknownEventType)
        }
    }
}

/// Size of the largest record: the receive buffer holds any record whole.
pub const RECORD_SIZE_MAX: usize = 289;

/// Every kind of record fits in `RECORD_SIZE_MAX` bytes, and needs at least
/// the header.
pub proof fn lemma_records_fit(k: EventKind)
    ensures
        HEADER_SIZE <= k.min_len() <= RECORD_SIZE_MAX,
{
}

/// Each kind has its own tag, and that tag announces it.
pub proof fn lemma_tag_round_trip(k: EventKind)
    ensures
        kind_of_tag(k.tag()) == Some(k),
{
}

/// A decoded event's kind is the one whose tag opens the record.
pub proof fn lemma_decoded_kind_matches_tag(b: Seq<u8>, ev: BotchlingEvent)
    requires
        ev.decodes(b),
    ensures
        b[0] == ev.kind().tag(),
{
}

/// Bytes after a decodable record change neither whether it decodes nor
/// what it decodes to.
pub proof fn lemma_trailing_bytes_ignored(b: Seq<u8>, extra: Seq<u8>, ev: BotchlingEvent)
    requires
        record_error(b) is None,
    ensures
        record_error(b + extra) is None,
        ev.decodes(b + extra) == ev.decodes(b),
{
    let be = b + extra;
    assert forall|i: int| 0 <= i < b.len() implies #[trigger] be[i] == b[i] by {}
    assert forall|at: int, end: int| 0 <= at <= end <= b.len() implies #[trigger] be.subrange(
        at,
        end,
    ) == b.subrange(at, end) by {
        assert(be.subrange(at, end) =~= b.subrange(at, end));
    }
}

} // verus!
