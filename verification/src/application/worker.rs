use vstd::prelude::*;

use std::collections::HashMap;

use crate::domain::event::{
    BotchlingEvent, ChatSentEvent, LoginEvent, LogoutEvent, MapChangeEvent, TeleportEvent,
};
use crate::domain::session::{ipv4_text, FinishedSession, SessionState};
use crate::text::{decimal, push_decimal};

verus! {

broadcast use vstd::std_specs::hash::group_hash_axioms;

/// Login counts that are announced: 1, 10, 50, 100, and every further
/// multiple of 100.
pub open spec fn milestone(count: int) -> bool {
    count == 1 || count == 10 || count == 50 || count == 100 || (count > 100 && count % 100 == 0)
}

/// Whether the `count`-th login is announced.
pub fn is_milestone(count: u64) -> (b: bool)
    ensures
        b == milestone(count as int),
{
    count == 1 || count == 10 || count == 50 || count == 100 || (count > 100 && count % 100 == 0)
}

/// The announcement of the `login_count`-th login with `online_now`
/// characters online.
pub open spec fn milestone_text(login_count: nat, online_now: nat) -> Seq<char> {
    "\u{1F3AE} O servidor tem cara nova! **"@ + decimal(login_count)
        + "** jogador(es) entraram no servidor, com **"@ + decimal(online_now)
        + "** online(s) agora."@
}

/// Builds the announcement of a login milestone.
pub fn milestone_message(login_count: u64, online_now: u64) -> (content: String)
    ensures
        content@ == milestone_text(login_count as nat, online_now as nat),
{
    let mut content = String::new();
    content.append("\u{1F3AE} O servidor tem cara nova! **");
    push_decimal(&mut content, login_count);
    content.append("** jogador(es) entraram no servidor, com **");
    push_decimal(&mut content, online_now);
    content.append("** online(s) agora.");
    assert(content@ =~= milestone_text(login_count as nat, online_now as nat));
    content
}

/// What the worker's caller has to do after an event.
#[derive(Debug)]
pub enum WorkerAction {
    /// Nothing beyond the state change.
    Nothing,
    /// Post `content` to the webhook at `webhook_url`.
    NotifyMilestone { webhook_url: String, content: String },
    /// Store the finished session.
    PersistSession(FinishedSession),
    /// Report a login of a character that already has a session.
    DuplicateLogin(u32),
    /// Report a logout of a character that has no session.
    UnknownLogout(u32),
}

/// The worker's decisions: the open session of each character and the
/// number of logins so far.
pub struct Worker {
    sessions: HashMap<u32, SessionState>,
    login_count: u64,
    discord_webhook_url: String,
}

/// `n` is `o` after a teleport event `e`.
pub open spec fn teleported(o: SessionState, n: SessionState, e: TeleportEvent) -> bool {
    &&& o.same_login(n)
    &&& o.timed(n, e.timestamp)
    &&& n.map == e.map
    &&& n.chat_count == o.chat_count
    &&& n.teleport_count == o.teleport_count + 1
    &&& n.last_tp_at == Some(e.timestamp)
}

/// `n` is `o` after a map-change event `e`.
pub open spec fn changed_map(o: SessionState, n: SessionState, e: MapChangeEvent) -> bool {
    &&& o.same_login(n)
    &&& o.timed(n, e.timestamp)
    &&& n.map == e.to_map
    &&& n.chat_count == o.chat_count
    &&& n.teleport_count == o.teleport_count
    &&& n.last_tp_at is None
}

/// `n` is `o` after a chat event `e`.
pub open spec fn chatted(o: SessionState, n: SessionState, e: ChatSentEvent) -> bool {
    &&& o.same_login(n)
    &&& o.timed(n, e.timestamp)
    &&& n.map == o.map
    &&& n.chat_count == o.chat_count + 1
    &&& n.teleport_count == o.teleport_count
    &&& n.last_tp_at is None
}

impl Worker {
    pub closed spec fn sessions(self) -> Map<u32, SessionState> {
        self.sessions@
    }

    pub closed spec fn logins(self) -> u64 {
        self.login_count
    }

    pub closed spec fn webhook_url(self) -> Seq<char> {
        self.discord_webhook_url@
    }

    /// Each session is filed under its character and is well formed, and
    /// there are no more open sessions than logins.
    #[verifier::type_invariant]
    spec fn wf(self) -> bool {
        &&& forall|k: u32| #[trigger]
            self.sessions().contains_key(k) ==> self.sessions()[k].char_id == k
                && self.sessions()[k].wf()
        &&& self.sessions().len() <= self.logins()
    }

    /// The session of character `k`, if it has one, moves from `self` to
    /// `next` by `step`; every other session and the login count stay.
    pub open spec fn steps_session(
        self,
        next: Worker,
        k: u32,
        step: spec_fn(SessionState, SessionState) -> bool,
    ) -> bool {
        &&& next.logins() == self.logins()
        &&& if self.sessions().contains_key(k) {
            &&& next.sessions().contains_key(k)
            &&& next.sessions() == self.sessions().insert(k, next.sessions()[k])
            &&& step(self.sessions()[k], next.sessions()[k])
        } else {
            next.sessions() == self.sessions()
        }
    }

    /// `next` and `action` are what handling `event` makes of `self`.
    pub open spec fn handled(self, next: Worker, event: BotchlingEvent, action: WorkerAction) -> bool {
        &&& next.webhook_url() == self.webhook_url()
        &&& match event {
            BotchlingEvent::Login(e) => if self.sessions().contains_key(e.char_id) {
                &&& next.sessions() == self.sessions()
                &&& next.logins() == self.logins()
                &&& action == WorkerAction::DuplicateLogin(e.char_id)
            } else {
                &&& next.logins() == self.logins() + 1
                &&& next.sessions().contains_key(e.char_id)
                &&& next.sessions() == self.sessions().insert(e.char_id, next.sessions()[e.char_id])
                &&& next.sessions()[e.char_id].is_fresh(
                    e.account_id,
                    e.char_id,
                    e.ip,
                    e.timestamp,
                    e.map,
                )
                &&& if milestone(next.logins() as int) && self.webhook_url().len() > 0 {
                    action matches WorkerAction::NotifyMilestone { webhook_url, content } && webhook_url@
                        == self.webhook_url() && content@ == milestone_text(
                        next.logins() as nat,
                        next.sessions().len(),
                    )
                } else {
                    action == WorkerAction::Nothing
                }
            },
            BotchlingEvent::Logout(e) => {
                &&& next.logins() == self.logins()
                &&& if self.sessions().contains_key(e.char_id) {
                    &&& next.sessions() == self.sessions().remove(e.char_id)
                    &&& action matches WorkerAction::PersistSession(f) && self.sessions()[e.char_id].finishes_as(f, e.timestamp)
                } else {
                    &&& next.sessions() == self.sessions()
                    &&& action == WorkerAction::UnknownLogout(e.char_id)
                }
            },
            BotchlingEvent::Walk(e) => {
                &&& self.steps_session(next, e.char_id, |o: SessionState, n: SessionState| o.after_timing(n, e.timestamp))
                &&& action == WorkerAction::Nothing
            },
            BotchlingEvent::MobKill(e) => {
                &&& self.steps_session(next, e.char_id, |o: SessionState, n: SessionState| o.after_timing(n, e.timestamp))
                &&& action == WorkerAction::Nothing
            },
            BotchlingEvent::TakeItem(e) => {
                &&& self.steps_session(next, e.char_id, |o: SessionState, n: SessionState| o.after_timing(n, e.timestamp))
                &&& action == WorkerAction::Nothing
            },
            BotchlingEvent::Teleport(e) => {
                &&& self.steps_session(next, e.char_id, |o: SessionState, n: SessionState| teleported(o, n, e))
                &&& action == WorkerAction::Nothing
            },
            BotchlingEvent::MapChange(e) => {
                &&& self.steps_session(next, e.char_id, |o: SessionState, n: SessionState| changed_map(o, n, e))
                &&& action == WorkerAction::Nothing
            },
            BotchlingEvent::ChatSent(e) => {
                &&& self.steps_session(next, e.char_id, |o: SessionState, n: SessionState| chatted(o, n, e))
                &&& action == WorkerAction::Nothing
            },
        }
    }

    /// Handling `event` overflows none of the counters: the login count on a
    /// new login, the teleport or chat count of the session it touches.
    pub open spec fn can_take(self, event: BotchlingEvent) -> bool {
        match event {
            BotchlingEvent::Login(e) => !self.sessions().contains_key(e.char_id) ==> self.logins()
                < u64::MAX,
            BotchlingEvent::Teleport(e) => self.sessions().contains_key(e.char_id)
                ==> self.sessions()[e.char_id].teleport_count < u32::MAX,
            BotchlingEvent::ChatSent(e) => self.sessions().contains_key(e.char_id)
                ==> self.sessions()[e.char_id].chat_count < u32::MAX,
            _ => true,
        }
    }

    /// A worker with no session and no login yet, announcing milestones to
    /// `discord_webhook_url` (none when it is empty).
    pub fn new(discord_webhook_url: String) -> (w: Worker)
        ensures
            w.sessions() == Map::<u32, SessionState>::empty(),
            w.logins() == 0,
            w.webhook_url() == discord_webhook_url@,
    {
        Worker { sessions: HashMap::new(), login_count: 0, discord_webhook_url }
    }

    /// The number of logins so far.
    pub fn login_count(&self) -> (n: u64)
        ensures
            n == self.logins(),
    {
        self.login_count
    }

    /// The number of open sessions.
    pub fn online_count(&self) -> (n: usize)
        ensures
            n == self.sessions().len(),
    {
        self.sessions.len()
    }

    /// The open session of `char_id`, if any.
    pub fn session(&self, char_id: u32) -> (s: Option<&SessionState>)
        ensures
            match s {
                Some(st) => self.sessions().contains_key(char_id) && *st == self.sessions()[char_id],
                None => !self.sessions().contains_key(char_id),
            },
    {
        self.sessions.get(&char_id)
    }

    /// Whether handling `event` keeps every counter in range.
    pub fn accepts(&self, event: &BotchlingEvent) -> (b: bool)
        ensures
            b == self.can_take(*event),
    {
        match event {
            BotchlingEvent::Login(e) => self.sessions.contains_key(&e.char_id) || self.login_count
                < u64::MAX,
            BotchlingEvent::Teleport(e) => match self.sessions.get(&e.char_id) {
                Some(s) => s.teleport_count < u32::MAX,
                None => true,
            },
            BotchlingEvent::ChatSent(e) => match self.sessions.get(&e.char_id) {
                Some(s) => s.chat_count < u32::MAX,
                None => true,
            },
            _ => true,
        }
    }

    /// Applies one event and says what is left to do.
    pub fn handle(&mut self, event: BotchlingEvent) -> (action: WorkerAction)
        requires
            old(self).can_take(event),
        ensures
            old(self).handled(*final(self), event, action),
    {
        proof {
            use_type_invariant(&*self);
        }
        match event {
            BotchlingEvent::Login(e) => self.handle_login(e),
            BotchlingEvent::Logout(e) => self.handle_logout(e),
            BotchlingEvent::Walk(e) => {
                self.handle_timing(e.char_id, e.timestamp);
                WorkerAction::Nothing
            },
            BotchlingEvent::MobKill(e) => {
                self.handle_timing(e.char_id, e.timestamp);
                WorkerAction::Nothing
            },
            BotchlingEvent::TakeItem(e) => {
                self.handle_timing(e.char_id, e.timestamp);
                WorkerAction::Nothing
            },
            BotchlingEvent::Teleport(e) => {
                self.handle_teleport(e);
                WorkerAction::Nothing
            },
            BotchlingEvent::MapChange(e) => {
                self.handle_map_change(e);
                WorkerAction::Nothing
            },
            BotchlingEvent::ChatSent(e) => {
                self.handle_chat(e);
                WorkerAction::Nothing
            },
        }
    }

    fn handle_login(&mut self, e: LoginEvent) -> (action: WorkerAction)
        requires
            old(self).can_take(BotchlingEvent::Login(e)),
        ensures
            old(self).handled(*final(self), BotchlingEvent::Login(e), action),
    {
        proof {
            use_type_invariant(&*self);
        }
        let char_id = e.char_id;
        if self.sessions.contains_key(&char_id) {
            return WorkerAction::DuplicateLogin(char_id);
        }
        let mut sessions = HashMap::new();
        std::mem::swap(&mut sessions, &mut self.sessions);
        let state = SessionState::new(e.account_id, e.char_id, e.ip, e.timestamp, e.map);
        sessions.insert(char_id, state);
        self.login_count = self.login_count + 1;
        assert(sessions@ == old(self).sessions@.insert(char_id, sessions@[char_id]));
        self.sessions = sessions;
        if is_milestone(self.login_count) && !self.discord_webhook_url.as_str().is_empty() {
            let online_now = self.sessions.len();
            let content = milestone_message(self.login_count, online_now as u64);
            WorkerAction::NotifyMilestone { webhook_url: self.discord_webhook_url.clone(), content }
        } else {
            WorkerAction::Nothing
        }
    }

    fn handle_logout(&mut self, e: LogoutEvent) -> (action: WorkerAction)
        ensures
            old(self).handled(*final(self), BotchlingEvent::Logout(e), action),
    {
        proof {
            use_type_invariant(&*self);
        }
        let mut sessions = HashMap::new();
        std::mem::swap(&mut sessions, &mut self.sessions);
        let action = match sessions.remove(&e.char_id) {
            Some(state) => WorkerAction::PersistSession(state.finalize(e.timestamp)),
            None => {
                assert(sessions@ =~= old(self).sessions@);
                WorkerAction::UnknownLogout(e.char_id)
            },
        };
        self.sessions = sessions;
        action
    }

    fn handle_timing(&mut self, char_id: u32, timestamp: i64)
        ensures
            old(self).steps_session(*final(self), char_id, |o: SessionState, n: SessionState| o.after_timing(n, timestamp)),
            final(self).webhook_url() == old(self).webhook_url(),
    {
        proof {
            use_type_invariant(&*self);
        }
        let mut sessions = HashMap::new();
        std::mem::swap(&mut sessions, &mut self.sessions);
        match sessions.remove(&char_id) {
            Some(mut state) => {
                state.update_timing(timestamp);
                sessions.insert(char_id, state);
                assert(sessions@ =~= old(self).sessions@.insert(char_id, sessions@[char_id]));
            },
            None => {
                assert(sessions@ =~= old(self).sessions@);
            },
        }
        self.sessions = sessions;
    }

    fn handle_teleport(&mut self, e: TeleportEvent)
        requires
            old(self).can_take(BotchlingEvent::Teleport(e)),
        ensures
            old(self).steps_session(*final(self), e.char_id, |o: SessionState, n: SessionState| teleported(o, n, e)),
            final(self).webhook_url() == old(self).webhook_url(),
    {
        proof {
            use_type_invariant(&*self);
        }
        let char_id = e.char_id;
        let mut sessions = HashMap::new();
        std::mem::swap(&mut sessions, &mut self.sessions);
        match sessions.remove(&char_id) {
            Some(mut state) => {
                state.update_timing(e.timestamp);
                state.teleport_count = state.teleport_count + 1;
                state.last_tp_at = Some(e.timestamp);
                state.map = e.map;
                sessions.insert(char_id, state);
                assert(sessions@ =~= old(self).sessions@.insert(char_id, sessions@[char_id]));
            },
            None => {
                assert(sessions@ =~= old(self).sessions@);
            },
        }
        self.sessions = sessions;
    }

    fn handle_map_change(&mut self, e: MapChangeEvent)
        ensures
            old(self).steps_session(*final(self), e.char_id, |o: SessionState, n: SessionState| changed_map(o, n, e)),
            final(self).webhook_url() == old(self).webhook_url(),
    {
        proof {
            use_type_invariant(&*self);
        }
        let char_id = e.char_id;
        let mut sessions = HashMap::new();
        std::mem::swap(&mut sessions, &mut self.sessions);
        match sessions.remove(&char_id) {
            Some(mut state) => {
                state.update_timing(e.timestamp);
                state.map = e.to_map;
                sessions.insert(char_id, state);
                assert(sessions@ =~= old(self).sessions@.insert(char_id, sessions@[char_id]));
            },
            None => {
                assert(sessions@ =~= old(self).sessions@);
            },
        }
        self.sessions = sessions;
    }

    fn handle_chat(&mut self, e: ChatSentEvent)
        requires
            old(self).can_take(BotchlingEvent::ChatSent(e)),
        ensures
            old(self).steps_session(*final(self), e.char_id, |o: SessionState, n: SessionState| chatted(o, n, e)),
            final(self).webhook_url() == old(self).webhook_url(),
    {
        proof {
            use_type_invariant(&*self);
        }
        let char_id = e.char_id;
        let mut sessions = HashMap::new();
        std::mem::swap(&mut sessions, &mut self.sessions);
        match sessions.remove(&char_id) {
            Some(mut state) => {
                state.update_timing(e.timestamp);
                state.chat_count = state.chat_count + 1;
                sessions.insert(char_id, state);
                assert(sessions@ =~= old(self).sessions@.insert(char_id, sessions@[char_id]));
            },
            None => {
                assert(sessions@ =~= old(self).sessions@);
            },
        }
        self.sessions = sessions;
    }
}

/// Past 100, a login count is announced exactly when the count 100 logins
/// later is; up to 100, only 1, 10, 50 and 100 are.
pub proof fn lemma_milestones(count: int)
    ensures
        count >= 100 ==> (milestone(count) <==> milestone(count + 100)),
        0 <= count <= 100 ==> (milestone(count) <==> (count == 1 || count == 10 || count == 50
            || count == 100)),
{
}

/// A login of a character that already has a session changes nothing and
/// is reported.
pub proof fn lemma_duplicate_login_ignored(
    w0: Worker,
    w1: Worker,
    e: LoginEvent,
    action: WorkerAction,
)
    requires
        w0.sessions().contains_key(e.char_id),
        w0.handled(w1, BotchlingEvent::Login(e), action),
    ensures
        w1.sessions() == w0.sessions(),
        w1.logins() == w0.logins(),
        action == WorkerAction::DuplicateLogin(e.char_id),
{
}

/// An action, teleport, map change or chat of a character without a session
/// changes nothing and asks for nothing.
pub proof fn lemma_unknown_character_ignored(
    w0: Worker,
    w1: Worker,
    event: BotchlingEvent,
    action: WorkerAction,
)
    requires
        !(event is Login),
        !(event is Logout),
        !w0.sessions().contains_key(event.header().2),
        w0.handled(w1, event, action),
    ensures
        w1.sessions() == w0.sessions(),
        w1.logins() == w0.logins(),
        action == WorkerAction::Nothing,
{
}

/// A login followed by the logout of the same character leaves the open
/// sessions as they were, counts one login, and hands over a session that
/// began at the login and ended at the logout, with no action recorded.
pub proof fn lemma_login_then_logout(
    w0: Worker,
    w1: Worker,
    w2: Worker,
    login: LoginEvent,
    logout: LogoutEvent,
    a1: WorkerAction,
    a2: WorkerAction,
)
    requires
        !w0.sessions().contains_key(login.char_id),
        logout.char_id == login.char_id,
        w0.handled(w1, BotchlingEvent::Login(login), a1),
        w1.handled(w2, BotchlingEvent::Logout(logout), a2),
    ensures
        w2.sessions() == w0.sessions(),
        w2.logins() == w0.logins() + 1,
        a2 matches WorkerAction::PersistSession(f) && {
            &&& f.account_id == login.account_id
            &&& f.char_id == login.char_id
            &&& f.ip_address@ == ipv4_text(login.ip)
            &&& f.login_time == login.timestamp
            &&& f.logout_time == logout.timestamp
            &&& f.gaps@.len() == 0
            &&& f.post_tp_delays@.len() == 0
            &&& f.max_idle_gaps_ms == 0
            &&& f.chat_count == 0
            &&& f.teleport_count == 0
        },
{
    assert(w2.sessions() =~= w0.sessions());
}

/// Without a webhook no login is announced.
pub proof fn lemma_no_webhook_no_announcement(
    w0: Worker,
    w1: Worker,
    e: LoginEvent,
    action: WorkerAction,
)
    requires
        w0.webhook_url().len() == 0,
        w0.handled(w1, BotchlingEvent::Login(e), action),
    ensures
        !(action is NotifyMilestone),
{
}

/// An event about one character leaves every other character's session as
/// it was.
pub proof fn lemma_other_sessions_untouched(
    w0: Worker,
    w1: Worker,
    event: BotchlingEvent,
    action: WorkerAction,
    k: u32,
)
    requires
        k != event.header().2,
        w0.handled(w1, event, action),
    ensures
        w1.sessions().contains_key(k) == w0.sessions().contains_key(k),
        w0.sessions().contains_key(k) ==> w1.sessions()[k] == w0.sessions()[k],
{
}

/// A new login is announced only at 1, 10, 50 and 100 logins and at every
/// further multiple of 100: at any other count it asks for nothing,
/// whatever the webhook.
pub proof fn lemma_ordinary_login_not_announced(
    w0: Worker,
    w1: Worker,
    e: LoginEvent,
    action: WorkerAction,
)
    requires
        !w0.sessions().contains_key(e.char_id),
        w0.handled(w1, BotchlingEvent::Login(e), action),
        !(w1.logins() == 1 || w1.logins() == 10 || w1.logins() == 50 || w1.logins() == 100 || (
        w1.logins() > 100 && w1.logins() % 100 == 0)),
    ensures
        action == WorkerAction::Nothing,
        w1.logins() == w0.logins() + 1,
{
}

/// With a webhook, the login that brings the count to 1, 10, 50, 100 or a
/// further multiple of 100 is announced to that webhook.
pub proof fn lemma_milestone_login_announced(
    w0: Worker,
    w1: Worker,
    e: LoginEvent,
    action: WorkerAction,
)
    requires
        !w0.sessions().contains_key(e.char_id),
        w0.webhook_url().len() > 0,
        w0.handled(w1, BotchlingEvent::Login(e), action),
        w1.logins() == 1 || w1.logins() == 10 || w1.logins() == 50 || w1.logins() == 100 || (
        w1.logins() > 100 && w1.logins() % 100 == 0),
    ensures
        action matches WorkerAction::NotifyMilestone { webhook_url, content } && webhook_url@
            == w0.webhook_url(),
{
}

/// A login opens a session with no teleport and no chat counted.
pub proof fn lemma_login_counts_start_at_zero(
    w0: Worker,
    w1: Worker,
    e: LoginEvent,
    action: WorkerAction,
)
    requires
        !w0.sessions().contains_key(e.char_id),
        w0.handled(w1, BotchlingEvent::Login(e), action),
    ensures
        w1.sessions().contains_key(e.char_id),
        w1.sessions()[e.char_id].teleport_count == 0,
        w1.sessions()[e.char_id].chat_count == 0,
{
}

/// Each teleport of a character with an open session raises its teleport
/// count by one and leaves its chat count as it was.
pub proof fn lemma_teleport_counted(
    w0: Worker,
    w1: Worker,
    e: TeleportEvent,
    action: WorkerAction,
)
    requires
        w0.sessions().contains_key(e.char_id),
        w0.handled(w1, BotchlingEvent::Teleport(e), action),
    ensures
        w1.sessions().contains_key(e.char_id),
        w1.sessions()[e.char_id].teleport_count == w0.sessions()[e.char_id].teleport_count + 1,
        w1.sessions()[e.char_id].chat_count == w0.sessions()[e.char_id].chat_count,
{
}

/// Each chat message of a character with an open session raises its chat
/// count by one and leaves its teleport count as it was.
pub proof fn lemma_chat_counted(
    w0: Worker,
    w1: Worker,
    e: ChatSentEvent,
    action: WorkerAction,
)
    requires
        w0.sessions().contains_key(e.char_id),
        w0.handled(w1, BotchlingEvent::ChatSent(e), action),
    ensures
        w1.sessions().contains_key(e.char_id),
        w1.sessions()[e.char_id].chat_count == w0.sessions()[e.char_id].chat_count + 1,
        w1.sessions()[e.char_id].teleport_count == w0.sessions()[e.char_id].teleport_count,
{
}

/// Only teleports change a session's teleport count and only chat messages
/// change its chat count: any other event leaves them as they were.
pub proof fn lemma_counts_change_only_on_their_events(
    w0: Worker,
    w1: Worker,
    event: BotchlingEvent,
    action: WorkerAction,
    k: u32,
)
    requires
        w0.sessions().contains_key(k),
        w1.sessions().contains_key(k),
        w0.handled(w1, event, action),
    ensures
        !(event is Teleport) ==> w1.sessions()[k].teleport_count == w0.sessions()[k].teleport_count,
        !(event is ChatSent) ==> w1.sessions()[k].chat_count == w0.sessions()[k].chat_count,
{
}

} // verus!
