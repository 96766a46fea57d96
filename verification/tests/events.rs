use botchling::domain::event::chat_sent;
use botchling::domain::event::login;
use botchling::domain::event::logout;
use botchling::domain::event::map_change;
use botchling::domain::event::mob_kill;
use botchling::domain::event::take_item;
use botchling::domain::event::teleport;
use botchling::domain::event::walk;
use botchling::domain::event::{
    read_map, BotchlingEvent, EventKind, HEADER_SIZE, MAP_NAME_LEN, RECORD_SIZE_MAX,
};
use botchling::error::Error;

fn header(tag: u8, timestamp: i64, account_id: u32, char_id: u32) -> Vec<u8> {
    let mut b = vec![tag];
    b.extend_from_slice(&timestamp.to_le_bytes());
    b.extend_from_slice(&account_id.to_le_bytes());
    b.extend_from_slice(&char_id.to_le_bytes());
    b
}

fn field(text: &str, width: usize) -> Vec<u8> {
    let mut f = text.as_bytes().to_vec();
    f.resize(width, 0);
    f
}

#[test]
fn header_too_short_is_rejected() {
    let b = vec![1u8; HEADER_SIZE - 1];
    assert_eq!(BotchlingEvent::try_from(&b).unwrap_err(), Error::HeaderTooShort);
    assert_eq!(BotchlingEvent::try_from(&[]).unwrap_err(), Error::HeaderTooShort);
    assert_eq!(Error::HeaderTooShort.message(), "Buffer too short for header");
}

#[test]
fn unknown_tags_are_rejected() {
    for tag in [0u8, 9, 200, 255] {
        let b = header(tag, 1, 2, 3);
        assert_eq!(BotchlingEvent::try_from(&b).unwrap_err(), Error::UnknownEventType);
    }
    assert_eq!(Error::UnknownEventType.message(), "Unknown event type");
}

#[test]
fn login_record_decodes() {
    let mut b = header(1, 1_700_000_000_123, 2_000_001, 150_001);
    b.extend_from_slice(&0xC0A8_0001u32.to_le_bytes());
    b.extend_from_slice(&field("prontera", MAP_NAME_LEN));
    assert_eq!(b.len(), 37);
    match BotchlingEvent::try_from(&b).unwrap() {
        BotchlingEvent::Login(e) => {
            assert_eq!(e.timestamp, 1_700_000_000_123);
            assert_eq!(e.account_id, 2_000_001);
            assert_eq!(e.char_id, 150_001);
            assert_eq!(e.ip, 0xC0A8_0001);
            assert_eq!(e.map, "prontera");
        }
        other => panic!("unexpected {:?}", other),
    }
}

#[test]
fn short_login_record_is_rejected() {
    let mut b = header(1, 5, 6, 7);
    b.extend_from_slice(&[0u8; 19]);
    assert_eq!(b.len(), 36);
    let err = BotchlingEvent::try_from(&b).unwrap_err();
    assert_eq!(err, Error::EventTooShort(EventKind::Login));
    assert_eq!(err.message(), "Buffer too short for login event");
}

#[test]
fn logout_record_needs_only_the_header() {
    let b = header(2, -5, 10, 20);
    let ev = BotchlingEvent::try_from(&b).unwrap();
    assert_eq!(
        ev,
        BotchlingEvent::Logout(logout::LogoutEvent { account_id: 10, char_id: 20, timestamp: -5 })
    );
    assert_eq!(ev.char_id(), 20);
    assert_eq!(ev.timestamp(), -5);
}

#[test]
fn walk_record_decodes_signed_coordinates() {
    let mut b = header(3, 99, 1, 2);
    for v in [150i16, -1, i16::MIN, i16::MAX] {
        b.extend_from_slice(&v.to_le_bytes());
    }
    b.extend_from_slice(&field("geffen", MAP_NAME_LEN));
    let ev = BotchlingEvent::try_from(&b).unwrap();
    assert_eq!(
        ev,
        BotchlingEvent::Walk(walk::WalkEvent {
            account_id: 1,
            char_id: 2,
            timestamp: 99,
            from_x: 150,
            from_y: -1,
            to_x: i16::MIN,
            to_y: i16::MAX,
            map: "geffen".to_string(),
        })
    );
    b.pop();
    assert_eq!(BotchlingEvent::try_from(&b).unwrap_err(), Error::EventTooShort(EventKind::Walk));
    assert_eq!(Error::EventTooShort(EventKind::Walk).message(), "Buffer too short for WalkEvent");
}

#[test]
fn teleport_record_decodes() {
    let mut b = header(4, 1000, 3, 4);
    b.extend_from_slice(&field("payon", MAP_NAME_LEN));
    assert_eq!(
        BotchlingEvent::try_from(&b).unwrap(),
        BotchlingEvent::Teleport(teleport::TeleportEvent {
            account_id: 3,
            char_id: 4,
            timestamp: 1000,
            map: "payon".to_string(),
        })
    );
    b.pop();
    assert_eq!(
        BotchlingEvent::try_from(&b).unwrap_err(),
        Error::EventTooShort(EventKind::Teleport)
    );
}

#[test]
fn map_change_record_decodes() {
    let mut b = header(5, 7, 8, 9);
    b.extend_from_slice(&(-20i16).to_le_bytes());
    b.extend_from_slice(&300i16.to_le_bytes());
    b.extend_from_slice(&field("prontera", MAP_NAME_LEN));
    b.extend_from_slice(&field("morocc", MAP_NAME_LEN));
    assert_eq!(b.len(), 53);
    assert_eq!(
        BotchlingEvent::try_from(&b).unwrap(),
        BotchlingEvent::MapChange(map_change::MapChangeEvent {
            account_id: 8,
            char_id: 9,
            timestamp: 7,
            x: -20,
            y: 300,
            from_map: "prontera".to_string(),
            to_map: "morocc".to_string(),
        })
    );
    assert_eq!(
        BotchlingEvent::try_from(&b[..52]).unwrap_err(),
        Error::EventTooShort(EventKind::MapChange)
    );
    assert_eq!(
        Error::EventTooShort(EventKind::MapChange).message(),
        "Buffer too short for MapChangeEvent"
    );
}

#[test]
fn mob_kill_record_decodes() {
    let mut b = header(6, 11, 12, 13);
    b.extend_from_slice(&1002u16.to_le_bytes());
    b.extend_from_slice(&(-3i16).to_le_bytes());
    b.extend_from_slice(&4i16.to_le_bytes());
    b.extend_from_slice(&field("prt_fild08", MAP_NAME_LEN));
    assert_eq!(b.len(), 39);
    assert_eq!(
        BotchlingEvent::try_from(&b).unwrap(),
        BotchlingEvent::MobKill(mob_kill::MobKillEvent {
            account_id: 12,
            char_id: 13,
            timestamp: 11,
            mob_id: 1002,
            x: -3,
            y: 4,
            map: "prt_fild08".to_string(),
        })
    );
    assert_eq!(
        BotchlingEvent::try_from(&b[..38]).unwrap_err(),
        Error::EventTooShort(EventKind::MobKill)
    );
}

#[test]
fn take_item_record_decodes() {
    let mut b = header(7, 21, 22, 23);
    b.extend_from_slice(&512u32.to_le_bytes());
    b.extend_from_slice(&65535u16.to_le_bytes());
    b.extend_from_slice(&field("izlude", MAP_NAME_LEN));
    assert_eq!(
        BotchlingEvent::try_from(&b).unwrap(),
        BotchlingEvent::TakeItem(take_item::TakeItemEvent {
            account_id: 22,
            char_id: 23,
            timestamp: 21,
            item_id: 512,
            amount: 65535,
            map: "izlude".to_string(),
        })
    );
    assert_eq!(
        BotchlingEvent::try_from(&b[..38]).unwrap_err(),
        Error::EventTooShort(EventKind::TakeItem)
    );
}

#[test]
fn chat_record_decodes() {
    let mut b = header(8, 31, 32, 33);
    b.extend_from_slice(&field("hello world", 256));
    b.extend_from_slice(&field("alberta", MAP_NAME_LEN));
    assert_eq!(b.len(), RECORD_SIZE_MAX);
    assert_eq!(
        BotchlingEvent::try_from(&b).unwrap(),
        BotchlingEvent::ChatSent(chat_sent::ChatSentEvent {
            account_id: 32,
            char_id: 33,
            timestamp: 31,
            message: "hello world".to_string(),
            map: "alberta".to_string(),
        })
    );
    assert_eq!(
        BotchlingEvent::try_from(&b[..288]).unwrap_err(),
        Error::EventTooShort(EventKind::ChatSent)
    );
}

#[test]
fn chat_message_without_nul_fills_the_field() {
    let mut b = header(8, 1, 1, 1);
    b.extend_from_slice(&[b'a'; 256]);
    b.extend_from_slice(&[b'm'; 16]);
    match BotchlingEvent::try_from(&b).unwrap() {
        BotchlingEvent::ChatSent(e) => {
            assert_eq!(e.message, "a".repeat(256));
            assert_eq!(e.map, "m".repeat(16));
        }
        other => panic!("unexpected {:?}", other),
    }
}

#[test]
fn read_map_stops_at_first_nul() {
    let buf = b"xxab\0cdefghijklmnopq".to_vec();
    assert_eq!(read_map(&buf, 2), "ab");
    assert_eq!(read_map(&buf, 0), "xxab");
    let full = b"0123456789abcdefZZ".to_vec();
    assert_eq!(read_map(&full, 0), "0123456789abcdef");
    let empty = vec![0u8; 16];
    assert_eq!(read_map(&empty, 0), "");
}

#[test]
fn read_map_replaces_invalid_utf8() {
    let mut buf = vec![b'a', 0xFF, b'b'];
    buf.resize(16, 0);
    assert_eq!(read_map(&buf, 0), "a\u{FFFD}b");
    let mut utf8 = "\u{e1}gua".as_bytes().to_vec();
    utf8.resize(16, 0);
    assert_eq!(read_map(&utf8, 0), "\u{e1}gua");
}

#[test]
fn trailing_bytes_do_not_change_the_event() {
    let mut b = header(3, 5, 6, 7);
    b.extend_from_slice(&[1, 0, 2, 0, 3, 0, 4, 0]);
    b.extend_from_slice(&field("prontera", MAP_NAME_LEN));
    let plain = BotchlingEvent::try_from(&b).unwrap();
    let mut longer = b.clone();
    longer.extend_from_slice(&[0xAA; 40]);
    assert_eq!(BotchlingEvent::try_from(&longer).unwrap(), plain);
}

#[test]
fn decoded_kind_follows_the_tag() {
    let mut b = vec![0u8; RECORD_SIZE_MAX];
    for tag in 1u8..=8 {
        b[0] = tag;
        let ev = BotchlingEvent::try_from(&b).unwrap();
        let expected = match tag {
            1 => matches!(ev, BotchlingEvent::Login(_)),
            2 => matches!(ev, BotchlingEvent::Logout(_)),
            3 => matches!(ev, BotchlingEvent::Walk(_)),
            4 => matches!(ev, BotchlingEvent::Teleport(_)),
            5 => matches!(ev, BotchlingEvent::MapChange(_)),
            6 => matches!(ev, BotchlingEvent::MobKill(_)),
            7 => matches!(ev, BotchlingEvent::TakeItem(_)),
            _ => matches!(ev, BotchlingEvent::ChatSent(_)),
        };
        assert!(expected);
    }
}

#[test]
fn each_parse_checks_its_own_length() {
    let short = vec![0u8; 20];
    assert_eq!(
        login::parse(&short, 1, 2, 3).unwrap_err(),
        Error::EventTooShort(EventKind::Login)
    );
    assert_eq!(walk::parse(&short, 1, 2, 3).unwrap_err(), Error::EventTooShort(EventKind::Walk));
    assert_eq!(
        chat_sent::parse(&short, 1, 2, 3).unwrap_err(),
        Error::EventTooShort(EventKind::ChatSent)
    );
    assert!(logout::parse(&short, 1, 2, 3).is_ok());
    let long = vec![0u8; RECORD_SIZE_MAX];
    match chat_sent::parse(&long, 4, 5, 6).unwrap() {
        BotchlingEvent::ChatSent(e) => {
            assert_eq!((e.timestamp, e.account_id, e.char_id), (4, 5, 6));
            assert_eq!(e.message, "");
        }
        other => panic!("unexpected {:?}", other),
    }
}

#[test]
fn header_fields_are_little_endian() {
    let mut b = vec![2u8];
    b.extend_from_slice(&[0xFF; 8]);
    b.extend_from_slice(&[0x78, 0x56, 0x34, 0x12]);
    b.extend_from_slice(&[0xFF, 0xFF, 0xFF, 0xFF]);
    let ev = BotchlingEvent::try_from(&b).unwrap();
    assert_eq!(ev.timestamp(), -1);
    assert_eq!(ev.char_id(), u32::MAX);
    match ev {
        BotchlingEvent::Logout(e) => assert_eq!(e.account_id, 0x1234_5678),
        other => panic!("unexpected {:?}", other),
    }
}

#[test]
fn read_map_of_invalid_bytes_stays_within_the_field() {
    let buf = vec![0xFFu8; 16];
    let text = read_map(&buf, 0);
    assert_eq!(text, "\u{FFFD}".repeat(16));
    assert!(text.chars().count() <= MAP_NAME_LEN);
    assert!(!text.contains('\0'));
}
