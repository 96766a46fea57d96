use vstd::prelude::*;

use crate::domain::event::EventKind;

verus! {

/// The environment variables whose values the configuration reads.
#[derive(Clone, Copy, Debug, PartialEq, Eq, Structural)]
pub enum EnvVar {
    MongoUser,
    MongoPassword,
    MongoHost,
    MongoPort,
    MongoDb,
    MongoTtlDays,
}

/// Why a record could not be decoded, or a configuration not built.
#[derive(Clone, Copy, Debug, PartialEq, Eq, Structural)]
pub enum Error {
    /// The record is shorter than the common header.
    HeaderTooShort,
    /// The record's tag names no known event.
    UnknownEventType,
    /// The record is shorter than the layout of its event.
    EventTooShort(EventKind),
    /// A required environment variable is not set.
    MissingVariable(EnvVar),
    /// A numeric environment variable does not hold a number of its type.
    InvalidNumber(EnvVar),
}

impl EnvVar {
    pub open spec fn spec_name(self) -> Seq<char> {
        match self {
            EnvVar::MongoUser => "MONGO_USER"@,
            EnvVar::MongoPassword => "MONGO_PASSWORD"@,
            EnvVar::MongoHost => "MONGO_HOST"@,
            EnvVar::MongoPort => "MONGO_PORT"@,
            EnvVar::MongoDb => "MONGO_DB"@,
            EnvVar::MongoTtlDays => "MONGO_TTL_DAYS"@,
        }
    }

    /// The variable's name in the environment.
    pub fn name(self) -> (n: &'static str)
        ensures
            n@ == self.spec_name(),
    {
        match self {
            EnvVar::MongoUser => "MONGO_USER",
            EnvVar::MongoPassword => "MONGO_PASSWORD",
            EnvVar::MongoHost => "MONGO_HOST",
            EnvVar::MongoPort => "MONGO_PORT",
            EnvVar::MongoDb => "MONGO_DB",
            EnvVar::MongoTtlDays => "MONGO_TTL_DAYS",
        }
    }
}

/// The message for a record too short for its kind.
pub open spec fn too_short_text(k: EventKind) -> Seq<char> {
    match k {
        EventKind::Login => "Buffer too short for login event"@,
        EventKind::Logout => "Buffer too short for LogoutEvent"@,
        EventKind::Walk => "Buffer too short for WalkEvent"@,
        EventKind::Teleport => "Buffer too short for TeleportEvent"@,
        EventKind::MapChange => "Buffer too short for MapChangeEvent"@,
        EventKind::MobKill => "Buffer too short for MobKillEvent"@,
        EventKind::TakeItem => "Buffer too short for TakeItemEvent"@,
        EventKind::ChatSent => "Buffer too short for ChatSentEvent"@,
    }
}

fn too_short_message(k: EventKind) -> (m: &'static str)
    ensures
        m@ == too_short_text(k),
{
    match k {
        EventKind::Login => "Buffer too short for login event",
        EventKind::Logout => "Buffer too short for LogoutEvent",
        EventKind::Walk => "Buffer too short for WalkEvent",
        EventKind::Teleport => "Buffer too short for TeleportEvent",
        EventKind::MapChange => "Buffer too short for MapChangeEvent",
        EventKind::MobKill => "Buffer too short for MobKillEvent",
        EventKind::TakeItem => "Buffer too short for TakeItemEvent",
        EventKind::ChatSent => "Buffer too short for ChatSentEvent",
    }
}

impl Error {
    /// The human-readable text of the error.
    pub open spec fn text(self) -> Seq<char> {
        match self {
            Error::HeaderTooShort => "Buffer too short for header"@,
            Error::UnknownEventType => "Unknown event type"@,
            Error::EventTooShort(k) => too_short_text(k),
            Error::MissingVariable(v) => v.spec_name() + " environment variable is missing"@,
            Error::InvalidNumber(v) => v.spec_name()
                + " environment variable must be a valid number"@,
        }
    }

    /// The human-readable text of the error.
    pub fn message(&self) -> (m: String)
        ensures
            m@ == self.text(),
    {
        match self {
            Error::HeaderTooShort => "Buffer too short for header".to_owned(),
            Error::UnknownEventType => "Unknown event type".to_owned(),
            Error::EventTooShort(k) => too_short_message(*k).to_owned(),
            Error::MissingVariable(v) => {
                let mut m = v.name().to_owned();
                m.append(" environment variable is missing");
                m
            },
            Error::InvalidNumber(v) => {
                let mut m = v.name().to_owned();
                m.append(" environment variable must be a valid number");
                m
            },
        }
    }
}

} // verus!
