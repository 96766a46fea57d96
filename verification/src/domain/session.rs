use vstd::prelude::*;

use crate::text::{decimal, push_decimal};

verus! {

/// The idle time between an action at `from` and the next at `to`, in
/// milliseconds: their difference, or zero when `to` is not later.
pub open spec fn idle_gap(from: i64, to: i64) -> int {
    if to - from > 0 {
        to - from
    } else {
        0
    }
}

/// The largest element of `s`, or zero when it is empty.
pub open spec fn seq_max(s: Seq<u64>) -> int
    decreases s.len(),
{
    if s.len() == 0 {
        0
    } else {
        let m = seq_max(s.drop_last());
        if s.last() > m {
            s.last() as int
        } else {
            m
        }
    }
}

/// The dotted-quad text of an IPv4 address held most significant octet first.
pub open spec fn ipv4_text(ip: u32) -> Seq<char> {
    decimal((ip / 0x100_0000) as nat) + seq!['.'] + decimal(((ip / 0x1_0000) % 0x100) as nat)
        + seq!['.'] + decimal(((ip / 0x100) % 0x100) as nat) + seq!['.'] + decimal(
        (ip % 0x100) as nat,
    )
}

/// Session length in milliseconds from login to logout, zero when the
/// logout is not later.
pub open spec fn session_length(login_time: i64, logout_time: i64) -> int {
    idle_gap(login_time, logout_time)
}

/// The points of the bot score that rest on integers alone: 25 when the
/// session lasted over a minute without any idle gap of 5 s, and 20 when it
/// lasted over half an hour without a chat message.
pub open spec fn integer_rule_points(max_idle_gap: u64, chat_count: u32, session_ms: u64) -> int {
    (if max_idle_gap < 5_000 && session_ms > 60_000 {
        25int
    } else {
        0int
    }) + (if chat_count == 0 && session_ms > 1_800_000 {
        20int
    } else {
        0int
    })
}

/// What the worker keeps about a character between its login and logout.
#[derive(Debug)]
pub struct SessionState {
    pub account_id: u32,
    pub char_id: u32,
    pub ip: u32,
    pub login_time: i64,
    pub map: String,
    /// Every idle gap between consecutive actions, in the order seen; the
    /// running mean and deviation of the session are taken over them.
    pub gaps: Vec<u64>,
    pub last_event_at: i64,
    pub max_idle_gaps_ms: u64,
    pub chat_count: u32,
    pub teleport_count: u32,
    pub last_tp_at: Option<i64>,
    /// For each teleport followed by an action, the time from the teleport
    /// to that action.
    pub post_tp_delays: Vec<i128>,
}

/// A session at logout: what the session state holds, the octets of its
/// address as text, its length and the points of the integer rules.
#[derive(Debug)]
pub struct FinishedSession {
    pub account_id: u32,
    pub char_id: u32,
    pub ip_address: String,
    pub login_time: i64,
    pub logout_time: i64,
    pub session_ms: u64,
    pub max_idle_gaps_ms: u64,
    pub chat_count: u32,
    pub teleport_count: u32,
    pub gaps: Vec<u64>,
    pub post_tp_delays: Vec<i128>,
    pub rule_points: u32,
}

impl SessionState {
    /// The longest idle gap is the largest of the gaps recorded.
    pub open spec fn wf(self) -> bool {
        self.max_idle_gaps_ms == seq_max(self.gaps@)
    }

    /// `next` belongs to the same login as `self`.
    pub open spec fn same_login(self, next: SessionState) -> bool {
        &&& next.account_id == self.account_id
        &&& next.char_id == self.char_id
        &&& next.ip == self.ip
        &&& next.login_time == self.login_time
    }

    /// `next` holds the timing of `self` after an action at `t`: the gap
    /// since the last action is recorded and may raise the longest gap, the
    /// action becomes the last one, and a pending teleport yields its delay.
    pub open spec fn timed(self, next: SessionState, t: i64) -> bool {
        let gap = idle_gap(self.last_event_at, t);
        &&& next.gaps@ == self.gaps@.push(gap as u64)
        &&& next.max_idle_gaps_ms == (if gap > self.max_idle_gaps_ms {
            gap
        } else {
            self.max_idle_gaps_ms as int
        })
        &&& next.last_event_at == t
        &&& next.post_tp_delays@ == match self.last_tp_at {
            Some(tp) => self.post_tp_delays@.push((t - tp) as i128),
            None => self.post_tp_delays@,
        }
    }

    /// `next` is `self` after `update_timing(t)`.
    pub open spec fn after_timing(self, next: SessionState, t: i64) -> bool {
        &&& self.same_login(next)
        &&& self.timed(next, t)
        &&& next.map == self.map
        &&& next.chat_count == self.chat_count
        &&& next.teleport_count == self.teleport_count
        &&& next.last_tp_at is None
    }

    /// The state of a session that has just begun.
    pub open spec fn is_fresh(
        self,
        account_id: u32,
        char_id: u32,
        ip: u32,
        login_time: i64,
        map: String,
    ) -> bool {
        &&& self.account_id == account_id
        &&& self.char_id == char_id
        &&& self.ip == ip
        &&& self.login_time == login_time
        &&& self.map == map
        &&& self.gaps@ == Seq::<u64>::empty()
        &&& self.last_event_at == login_time
        &&& self.max_idle_gaps_ms == 0
        &&& self.chat_count == 0
        &&& self.teleport_count == 0
        &&& self.last_tp_at is None
        &&& self.post_tp_delays@ == Seq::<i128>::empty()
    }

    /// `f` is what `finalize(logout_time)` makes of `self`.
    pub open spec fn finishes_as(self, f: FinishedSession, logout_time: i64) -> bool {
        let session_ms = session_length(self.login_time, logout_time);
        &&& f.account_id == self.account_id
        &&& f.char_id == self.char_id
        &&& f.ip_address@ == ipv4_text(self.ip)
        &&& f.login_time == self.login_time
        &&& f.logout_time == logout_time
        &&& f.session_ms == session_ms
        &&& f.max_idle_gaps_ms == self.max_idle_gaps_ms
        &&& f.chat_count == self.chat_count
        &&& f.teleport_count == self.teleport_count
        &&& f.gaps@ == self.gaps@
        &&& f.post_tp_delays@ == self.post_tp_delays@
        &&& f.rule_points == integer_rule_points(
            self.max_idle_gaps_ms,
            self.chat_count,
            session_ms as u64,
        )
    }

    /// Starts the session of a character that logged in at `login_time`.
    pub fn new(account_id: u32, char_id: u32, ip: u32, login_time: i64, map: String) -> (s: Self)
        ensures
            s.is_fresh(account_id, char_id, ip, login_time, map),
            s.wf(),
    {
        SessionState {
            account_id,
            char_id,
            ip,
            login_time,
            map,
            gaps: Vec::new(),
            last_event_at: login_time,
            max_idle_gaps_ms: 0,
            chat_count: 0,
            teleport_count: 0,
            last_tp_at: None,
            post_tp_delays: Vec::new(),
        }
    }

    /// Records an action at `timestamp`.
    pub fn update_timing(&mut self, timestamp: i64)
        ensures
            old(self).after_timing(*final(self), timestamp),
            old(self).wf() ==> final(self).wf(),
    {
        match self.last_tp_at {
            Some(tp_at) => {
                self.post_tp_delays.push(timestamp as i128 - tp_at as i128);
                self.last_tp_at = None;
            },
            None => {},
        }
        let diff: i128 = timestamp as i128 - self.last_event_at as i128;
        let gap: u64 = if diff > 0 {
            diff as u64
        } else {
            0
        };
        if gap > self.max_idle_gaps_ms {
            self.max_idle_gaps_ms = gap;
        }
        let ghost before = self.gaps@;
        self.gaps.push(gap);
        assert(self.gaps@.drop_last() =~= before);
        self.last_event_at = timestamp;
    }

    /// Ends the session at `logout_time`.
    pub fn finalize(self, logout_time: i64) -> (f: FinishedSession)
        ensures
            self.finishes_as(f, logout_time),
    {
        let diff: i128 = logout_time as i128 - self.login_time as i128;
        let session_ms: u64 = if diff > 0 {
            diff as u64
        } else {
            0
        };
        let mut rule_points: u32 = 0;
        if self.max_idle_gaps_ms < 5_000 && session_ms > 60_000 {
            rule_points = rule_points + 25;
        }
        if self.chat_count == 0 && session_ms > 1_800_000 {
            rule_points = rule_points + 20;
        }
        FinishedSession {
            account_id: self.account_id,
            char_id: self.char_id,
            ip_address: format_ip(self.ip),
            login_time: self.login_time,
            logout_time,
            session_ms,
            max_idle_gaps_ms: self.max_idle_gaps_ms,
            chat_count: self.chat_count,
            teleport_count: self.teleport_count,
            gaps: self.gaps,
            post_tp_delays: self.post_tp_delays,
            rule_points,
        }
    }
}

/// The dotted-quad text of `ip`, most significant octet first.
pub fn format_ip(ip: u32) -> (text: String)
    ensures
        text@ == ipv4_text(ip),
{
    proof {
        reveal_strlit(".");
    }
    let mut text = String::new();
    push_decimal(&mut text, (ip / 0x100_0000) as u64);
    text.append(".");
    push_decimal(&mut text, ((ip / 0x1_0000) % 0x100) as u64);
    text.append(".");
    push_decimal(&mut text, ((ip / 0x100) % 0x100) as u64);
    text.append(".");
    push_decimal(&mut text, (ip % 0x100) as u64);
    text
}

/// A teleport's delay is recorded by the next action, once: the action
/// after that records nothing.
pub proof fn lemma_teleport_delay_recorded(
    s1: SessionState,
    s2: SessionState,
    s3: SessionState,
    tp: i64,
    t: i64,
    t2: i64,
)
    requires
        s1.last_tp_at == Some(tp),
        s1.after_timing(s2, t),
        s2.after_timing(s3, t2),
    ensures
        s2.post_tp_delays@ == s1.post_tp_delays@.push((t - tp) as i128),
        s3.post_tp_delays@ == s2.post_tp_delays@,
{
}

/// The longest idle gap is never shorter than any recorded gap.
pub proof fn lemma_max_gap_bounds_gaps(s: SessionState, i: int)
    requires
        s.wf(),
        0 <= i < s.gaps@.len(),
    ensures
        s.gaps@[i] <= s.max_idle_gaps_ms,
    decreases s.gaps@.len(),
{
    let g = s.gaps@;
    lemma_seq_max_bounds(g, i);
}

proof fn lemma_seq_max_bounds(g: Seq<u64>, i: int)
    requires
        0 <= i < g.len(),
    ensures
        g[i] <= seq_max(g),
    decreases g.len(),
{
    if i < g.len() - 1 {
        lemma_seq_max_bounds(g.drop_last(), i);
    }
}

/// A session in which the character chatted earns no silence points at
/// logout: its rule points are 25 when it lasted over a minute with every
/// idle gap under 5 s, and 0 otherwise.
pub proof fn lemma_chatting_session_earns_no_silence_points(
    s: SessionState,
    f: FinishedSession,
    logout_time: i64,
)
    requires
        s.finishes_as(f, logout_time),
        s.chat_count > 0,
    ensures
        f.rule_points == (if s.max_idle_gaps_ms < 5_000 && f.session_ms > 60_000 {
            25int
        } else {
            0int
        }),
{
}

/// A silent session earns the 20 silence points exactly when it lasted over
/// half an hour; whatever the session, the points are 0, 20, 25 or 45, and
/// the session length is the time from login to logout (zero if the logout
/// is not later).
pub proof fn lemma_silence_points(s: SessionState, f: FinishedSession, logout_time: i64)
    requires
        s.finishes_as(f, logout_time),
    ensures
        f.rule_points == 0 || f.rule_points == 20 || f.rule_points == 25 || f.rule_points == 45,
        s.chat_count == 0 && f.session_ms > 1_800_000 ==> f.rule_points >= 20,
        f.session_ms <= 1_800_000 ==> f.rule_points == 0 || f.rule_points == 25,
        f.session_ms <= 60_000 ==> f.rule_points == 0,
        logout_time > s.login_time ==> f.session_ms == logout_time - s.login_time,
        logout_time <= s.login_time ==> f.session_ms == 0,
{
}

} // verus!
