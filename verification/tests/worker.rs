use botchling::application::worker::{is_milestone, milestone_message, Worker, WorkerAction};
use botchling::domain::event::chat_sent::ChatSentEvent;
use botchling::domain::event::login::LoginEvent;
use botchling::domain::event::logout::LogoutEvent;
use botchling::domain::event::map_change::MapChangeEvent;
use botchling::domain::event::mob_kill::MobKillEvent;
use botchling::domain::event::take_item::TakeItemEvent;
use botchling::domain::event::teleport::TeleportEvent;
use botchling::domain::event::walk::WalkEvent;
use botchling::domain::event::BotchlingEvent;

fn login(char_id: u32, t: i64) -> BotchlingEvent {
    BotchlingEvent::Login(LoginEvent {
        account_id: char_id + 1_000,
        char_id,
        timestamp: t,
        ip: 0x0A00_0001,
        map: "prontera".to_string(),
    })
}

fn logout(char_id: u32, t: i64) -> BotchlingEvent {
    BotchlingEvent::Logout(LogoutEvent { account_id: char_id + 1_000, char_id, timestamp: t })
}

fn walk(char_id: u32, t: i64) -> BotchlingEvent {
    BotchlingEvent::Walk(WalkEvent {
        account_id: 0,
        char_id,
        timestamp: t,
        from_x: 0,
        from_y: 0,
        to_x: 1,
        to_y: 1,
        map: "prontera".to_string(),
    })
}

fn handle(w: &mut Worker, ev: BotchlingEvent) -> WorkerAction {
    assert!(w.accepts(&ev));
    w.handle(ev)
}

#[test]
fn milestones_are_1_10_50_100_and_every_hundred_after() {
    let hits: Vec<u64> = (0..=1_000).filter(|&c| is_milestone(c)).collect();
    assert_eq!(hits, vec![1, 10, 50, 100, 200, 300, 400, 500, 600, 700, 800, 900, 1_000]);
    assert!(!is_milestone(150));
    assert!(is_milestone(u64::MAX - u64::MAX % 100));
}

#[test]
fn milestone_message_text() {
    assert_eq!(
        milestone_message(10, 3),
        "\u{1F3AE} O servidor tem cara nova! **10** jogador(es) entraram no servidor, com **3** online(s) agora."
    );
}

#[test]
fn first_login_is_announced_when_webhook_is_set() {
    let mut w = Worker::new("https://hook.example/abc".to_string());
    match handle(&mut w, login(5, 100)) {
        WorkerAction::NotifyMilestone { webhook_url, content } => {
            assert_eq!(webhook_url, "https://hook.example/abc");
            assert_eq!(content, milestone_message(1, 1));
        }
        other => panic!("unexpected {:?}", other),
    }
    assert_eq!(w.login_count(), 1);
    assert_eq!(w.online_count(), 1);
    let s = w.session(5).unwrap();
    assert_eq!(s.login_time, 100);
    assert_eq!(s.account_id, 1_005);
}

#[test]
fn no_announcement_without_webhook() {
    let mut w = Worker::new(String::new());
    assert!(matches!(handle(&mut w, login(5, 100)), WorkerAction::Nothing));
    assert_eq!(w.login_count(), 1);
}

#[test]
fn tenth_login_is_announced_with_online_count() {
    let mut w = Worker::new("u".to_string());
    for c in 1..=9u32 {
        let _ = handle(&mut w, login(c, 0));
        if c % 2 == 0 {
            let _ = handle(&mut w, logout(c, 1));
        }
    }
    match handle(&mut w, login(10, 5)) {
        WorkerAction::NotifyMilestone { content, .. } => {
            assert_eq!(content, milestone_message(10, 6));
        }
        other => panic!("unexpected {:?}", other),
    }
}

#[test]
fn duplicate_login_is_reported_and_ignored() {
    let mut w = Worker::new(String::new());
    let _ = handle(&mut w, login(5, 100));
    assert!(matches!(handle(&mut w, login(5, 200)), WorkerAction::DuplicateLogin(5)));
    assert_eq!(w.login_count(), 1);
    assert_eq!(w.session(5).unwrap().login_time, 100);
}

#[test]
fn unknown_logout_is_reported() {
    let mut w = Worker::new(String::new());
    assert!(matches!(handle(&mut w, logout(9, 1)), WorkerAction::UnknownLogout(9)));
    assert_eq!(w.online_count(), 0);
}

#[test]
fn events_of_unknown_characters_change_nothing() {
    let mut w = Worker::new(String::new());
    let _ = handle(&mut w, login(1, 0));
    assert!(matches!(handle(&mut w, walk(2, 10)), WorkerAction::Nothing));
    assert!(w.session(2).is_none());
    assert!(w.session(1).unwrap().gaps.is_empty());
    assert_eq!(w.online_count(), 1);
}

#[test]
fn login_then_logout_hands_over_the_session() {
    let mut w = Worker::new(String::new());
    let _ = handle(&mut w, login(3, 1_000));
    match handle(&mut w, logout(3, 9_000)) {
        WorkerAction::PersistSession(f) => {
            assert_eq!(f.char_id, 3);
            assert_eq!(f.account_id, 1_003);
            assert_eq!(f.ip_address, "10.0.0.1");
            assert_eq!(f.login_time, 1_000);
            assert_eq!(f.logout_time, 9_000);
            assert_eq!(f.session_ms, 8_000);
            assert!(f.gaps.is_empty());
        }
        other => panic!("unexpected {:?}", other),
    }
    assert_eq!(w.online_count(), 0);
    assert_eq!(w.login_count(), 1);
}

#[test]
fn each_event_kind_updates_the_session() {
    let mut w = Worker::new(String::new());
    let _ = handle(&mut w, login(4, 0));
    let _ = handle(&mut w, walk(4, 100));
    let _ = handle(
        &mut w,
        BotchlingEvent::MobKill(MobKillEvent {
            account_id: 0,
            char_id: 4,
            timestamp: 300,
            mob_id: 1,
            x: 0,
            y: 0,
            map: "m".to_string(),
        }),
    );
    let _ = handle(
        &mut w,
        BotchlingEvent::Teleport(TeleportEvent {
            account_id: 0,
            char_id: 4,
            timestamp: 1_000,
            map: "payon".to_string(),
        }),
    );
    {
        let s = w.session(4).unwrap();
        assert_eq!(s.teleport_count, 1);
        assert_eq!(s.last_tp_at, Some(1_000));
        assert_eq!(s.map, "payon");
    }
    let _ = handle(
        &mut w,
        BotchlingEvent::TakeItem(TakeItemEvent {
            account_id: 0,
            char_id: 4,
            timestamp: 1_250,
            item_id: 7,
            amount: 1,
            map: "payon".to_string(),
        }),
    );
    let _ = handle(
        &mut w,
        BotchlingEvent::ChatSent(ChatSentEvent {
            account_id: 0,
            char_id: 4,
            timestamp: 1_300,
            message: "hi".to_string(),
            map: "payon".to_string(),
        }),
    );
    let _ = handle(
        &mut w,
        BotchlingEvent::MapChange(MapChangeEvent {
            account_id: 0,
            char_id: 4,
            timestamp: 9_300,
            x: 1,
            y: 2,
            from_map: "payon".to_string(),
            to_map: "geffen".to_string(),
        }),
    );
    let s = w.session(4).unwrap();
    assert_eq!(s.gaps, vec![100, 200, 700, 250, 50, 8_000]);
    assert_eq!(s.max_idle_gaps_ms, 8_000);
    assert_eq!(s.post_tp_delays, vec![250]);
    assert_eq!(s.chat_count, 1);
    assert_eq!(s.teleport_count, 1);
    assert_eq!(s.map, "geffen");
    assert_eq!(s.last_tp_at, None);
    assert_eq!(s.last_event_at, 9_300);
}

#[test]
fn online_count_never_exceeds_logins() {
    let mut w = Worker::new(String::new());
    for c in 0..50u32 {
        let _ = handle(&mut w, login(c % 7, c as i64));
        if c % 3 == 0 {
            let _ = handle(&mut w, logout((c + 1) % 7, c as i64));
        }
        assert!((w.online_count() as u64) <= w.login_count());
    }
}

#[test]
fn other_characters_sessions_are_untouched() {
    let mut w = Worker::new(String::new());
    let _ = handle(&mut w, login(1, 0));
    let _ = handle(&mut w, login(2, 0));
    let _ = handle(&mut w, walk(1, 500));
    let _ = handle(&mut w, walk(1, 900));
    let _ = handle(&mut w, logout(1, 1_000));
    let s2 = w.session(2).unwrap();
    assert!(s2.gaps.is_empty());
    assert_eq!(s2.last_event_at, 0);
    assert!(w.session(1).is_none());
}
