use server::convert::{IntoValue, Timestamp, str_value};
use server::error::Error;
use server::msg::auth::SessionData;
use server::msg::chat::JoinChannel;
use server::msg::combat::available::Origin;
use server::msg::combat::data::attack_received::monster::Monster as HitMonster;
use server::msg::combat::data::end::stats::Stats;
use server::msg::combat::data::start::opponent::Opponent;
use server::msg::combat::data::start::user::User as StartUser;
use server::msg::combat::data::{Monster, User};
use server::msg::combat::monster_ko::{Capture as KoCapture, MonsterKo, Replace};
use server::msg::combat::monster_ko_replace::MonsterKoReplace;
use server::msg::combat::{Ask, AttackReceived, Available, End, Flee, MonsterReplaced, SendAttack, Start};
use server::msg::portal::Capture as PortalCapture;
use server::msg::result::{ResultData, ResultMessage};
use server::msg::states::auth::{Authenticated, Session};
use server::msg::{self, Authenticate, Message, MessageFull, MessageHeader, MessagePart};
use server::value::{Integer, Value};

fn header(id: &str) -> MessageHeader {
    MessageHeader { id: Some(id.to_string()) }
}

fn id_of(h: &MessageHeader) -> Option<String> {
    h.id.clone()
}

fn text(v: Option<&Value>) -> Option<String> {
    match v {
        Some(Value::String(s)) => Some(s.clone()),
        _ => None,
    }
}

fn map(pairs: Vec<(&str, Value)>) -> Value {
    Value::Mapping(pairs.into_iter().map(|(k, v)| (str_value(k), v)).collect())
}

fn monster() -> Monster {
    Monster { id: 1, name: "Pikachu".to_string(), monster_id: 25, user_monster_id: 7, hp: 35, level: 5 }
}

fn missing(e: &Error) -> Option<&'static str> {
    match e {
        Error::MissingField(k) => Some(k),
        _ => None,
    }
}

fn invalid(e: &Error) -> Option<(&'static str, String)> {
    match e {
        Error::InvalidField(k, m) => Some((k, m.clone())),
        _ => None,
    }
}

#[test]
fn header_new_has_a_random_v4_id() {
    let h = MessageHeader::new();
    let id = h.id.clone().unwrap();
    assert_eq!(id.len(), 36);
    let chars: Vec<char> = id.chars().collect();
    for (i, c) in chars.iter().enumerate() {
        if i == 8 || i == 13 || i == 18 || i == 23 {
            assert_eq!(*c, '-');
        } else {
            assert!(c.is_ascii_hexdigit() && !c.is_ascii_uppercase());
        }
    }
    assert_eq!(chars[14], '4');
    assert!("89ab".contains(chars[19]));
    assert_ne!(MessageHeader::new().id, h.id);
}

#[test]
fn header_ensure_id_keeps_an_existing_id() {
    let mut h = header("abc");
    assert_eq!(h.ensure_id(), "abc");
    assert_eq!(id_of(&h), Some("abc".to_string()));
    let mut e = MessageHeader { id: None };
    let id = e.ensure_id();
    assert_eq!(id.len(), 36);
    assert_eq!(e.id, Some(id));
}

#[test]
fn header_encodes_its_id_or_nil() {
    let v = header("x").value();
    assert_eq!(text(v.get("id")), Some("x".to_string()));
    let v = MessageHeader { id: None }.value();
    assert!(v.get("id").unwrap().is_nil());
    assert_eq!(MessageHeader::decode(&v).unwrap().id, None);
}

#[test]
fn decode_reports_a_missing_field() {
    let v = map(vec![("type", str_value("combat:ask"))]);
    let e = Ask::decode(&v).unwrap_err();
    assert_eq!(missing(&e), Some("id"));
    let v = map(vec![("id", str_value("1"))]);
    let e = Ask::decode(&v).unwrap_err();
    assert_eq!(missing(&e), Some("opponent"));
    assert_eq!(e.description(), "Missing message field");
    assert_eq!(e.display(), "Missing message field: opponent");
}

#[test]
fn decode_reports_a_field_of_the_wrong_type() {
    let v = map(vec![("id", str_value("1")), ("opponent", Value::Boolean(true))]);
    let e = Ask::decode(&v).unwrap_err();
    assert_eq!(invalid(&e), Some(("opponent", "Invalid field type".to_string())));
    assert_eq!(e.description(), "Invalid message field");
    assert_eq!(e.display(), "Invalid message field: Invalid field type (at `opponent`)");
}

#[test]
fn authenticate_roundtrips() {
    let m = Authenticate { header: header("1"), token: "tok".to_string() };
    let v = m.value();
    assert_eq!(text(v.get("type")), Some("authenticate".to_string()));
    match Message::decode(&v).unwrap() {
        Message::Authenticate(a) => {
            assert_eq!(a.token, "tok");
            assert_eq!(id_of(&a.header), Some("1".to_string()));
        },
        other => panic!("decoded as {:?}", other),
    }
}

#[test]
fn authenticated_roundtrips() {
    let a = Authenticated { token: "t".to_string() };
    let v = a.value();
    assert_eq!(Authenticated::decode(&v).unwrap().token, "t");
}

#[test]
fn session_claims_compare_by_id() {
    assert_eq!(SessionData { session_id: 3 }, SessionData { session_id: 3 });
    assert_ne!(Session { session_id: 3 }, Session { session_id: 4 });
}

#[test]
fn chat_join_roundtrips() {
    let m = Message::Chat(msg::chat::Message::JoinChannel(JoinChannel { header: header("c"), channel: "general".to_string() }));
    let v = m.value();
    assert_eq!(text(v.get("type")), Some("chat:join-channel".to_string()));
    match Message::decode(&v).unwrap() {
        Message::Chat(msg::chat::Message::JoinChannel(j)) => assert_eq!(j.channel, "general"),
        other => panic!("decoded as {:?}", other),
    }
}

#[test]
fn combat_ask_roundtrips() {
    let v = Message::Combat(msg::combat::Message::Ask(Ask { header: header("a"), opponent: "bob".to_string() })).value();
    match Message::decode(&v).unwrap() {
        Message::Combat(msg::combat::Message::Ask(a)) => {
            assert_eq!(a.opponent, "bob");
            assert_eq!(id_of(&a.header), Some("a".to_string()));
        },
        other => panic!("decoded as {:?}", other),
    }
}

#[test]
fn combat_send_attack_roundtrips() {
    let v = SendAttack { header: header("s"), target: 2, attack: 3, combat: 4 }.value();
    match Message::decode(&v).unwrap() {
        Message::Combat(msg::combat::Message::SendAttack(s)) => {
            assert_eq!((s.target, s.attack, s.combat), (2, 3, 4));
        },
        other => panic!("decoded as {:?}", other),
    }
}

#[test]
fn combat_attack_received_roundtrips() {
    let m = AttackReceived {
        header: header("r"),
        attack: 1,
        monster: HitMonster { id: 2, hp: 30 },
        target: HitMonster { id: 3, hp: 0 },
        combat: 9,
    };
    match Message::decode(&m.value()).unwrap() {
        Message::Combat(msg::combat::Message::AttackReceived(a)) => {
            assert_eq!((a.attack, a.monster.id, a.monster.hp, a.target.id, a.target.hp, a.combat), (1, 2, 30, 3, 0, 9));
        },
        other => panic!("decoded as {:?}", other),
    }
}

#[test]
fn combat_flee_end_and_replaced_roundtrip() {
    match Message::decode(&Flee { header: header("f"), combat: 5 }.value()).unwrap() {
        Message::Combat(msg::combat::Message::Flee(f)) => assert_eq!(f.combat, 5),
        other => panic!("decoded as {:?}", other),
    }
    let end = End { header: header("e"), status: "win".to_string(), stats: Stats { id: 1, exp: 20, level: 3 }, combat: 6 };
    match Message::decode(&end.value()).unwrap() {
        Message::Combat(msg::combat::Message::End(e)) => {
            assert_eq!(e.status, "win");
            assert_eq!((e.stats.id, e.stats.exp, e.stats.level, e.combat), (1, 20, 3, 6));
        },
        other => panic!("decoded as {:?}", other),
    }
    let rep = MonsterReplaced { header: header("m"), combat: 7, monster: monster() };
    match Message::decode(&rep.value()).unwrap() {
        Message::Combat(msg::combat::Message::MonsterReplaced(r)) => {
            assert_eq!(r.combat, 7);
            assert_eq!(r.monster.name, "Pikachu");
            assert_eq!((r.monster.hp, r.monster.level), (35, 5));
        },
        other => panic!("decoded as {:?}", other),
    }
}

#[test]
fn combat_monster_ko_and_replace_roundtrip() {
    let ko = MonsterKo { header: header("k"), monster: 4 };
    match Message::decode(&ko.value()).unwrap() {
        Message::Combat(msg::combat::Message::MonsterKo(msg::combat::monster_ko::Message::Base(k))) => assert_eq!(k.monster, 4),
        other => panic!("decoded as {:?}", other),
    }
    let rep = Replace { header: header("r"), user_monster_id: 8 };
    match Message::decode(&rep.value()).unwrap() {
        Message::Combat(msg::combat::Message::MonsterKo(msg::combat::monster_ko::Message::Replace(r))) => {
            assert_eq!(r.user_monster_id, 8)
        },
        other => panic!("decoded as {:?}", other),
    }
}

#[test]
fn combat_ko_capture_is_tagged_as_a_replace() {
    let cap = KoCapture { header: header("c"), capture: true, name: Some("Sparky".to_string()) };
    let v = cap.value();
    assert_eq!(text(v.get("type")), Some("combat:monster-ko:replace".to_string()));
    let back = KoCapture::decode(&v).unwrap();
    assert!(back.capture);
    assert_eq!(back.name, Some("Sparky".to_string()));
    let e = Message::decode(&v).unwrap_err();
    assert_eq!(missing(&e), None);
    assert!(invalid(&e).is_some());
}

#[test]
fn combat_available_wild_and_duel_origins() {
    let wild = Available { header: header("w"), origin: Origin::WildMonster { monster_id: 3 }, monsters_max_count: 3 };
    let v = wild.value();
    assert_eq!(text(v.get("type")), Some("combat:available".to_string()));
    assert_eq!(text(v.get("origin")), Some("wild-monster".to_string()));
    assert!(v.get("monsters_max_count").is_none());
    let e = Available::decode(&v).unwrap_err();
    assert_eq!(missing(&e), Some("monsters_max_count"));
    match Origin::decode(&v).unwrap() {
        Origin::WildMonster { monster_id } => assert_eq!(monster_id, 3),
        other => panic!("decoded as {:?}", other),
    }
    let duel = Origin::Duel { user: User { id: 2, pseudo: "amy".to_string() } };
    match Origin::decode(&duel.value()).unwrap() {
        Origin::Duel { user } => assert_eq!((user.id, user.pseudo.as_str()), (2, "amy")),
        other => panic!("decoded as {:?}", other),
    }
}

#[test]
fn combat_available_decodes_with_its_count() {
    let mut v = Available { header: header("w"), origin: Origin::WildMonster { monster_id: 3 }, monsters_max_count: 3 }.value();
    v.set("monsters_max_count", 3u32.into_value());
    let a = Available::decode(&v).unwrap();
    assert_eq!(a.monsters_max_count, 3);
}

#[test]
fn combat_origin_portal_reads_its_timeout() {
    let user = User { id: 1, pseudo: "zed".to_string() }.value();
    let v = map(vec![("origin", str_value("portal")), ("user", user), ("timeout", str_value("2016-05-01T10:00:00Z"))]);
    match Origin::decode(&v).unwrap() {
        Origin::Portal { user, timeout } => {
            assert_eq!(user.pseudo, "zed");
            assert_eq!(timeout, Timestamp { secs: 1462096800, nanos: 0 });
        },
        other => panic!("decoded as {:?}", other),
    }
    let bad = map(vec![("origin", str_value("portal")), ("user", User { id: 1, pseudo: "z".to_string() }.value()), ("timeout", str_value("soon"))]);
    assert_eq!(invalid(&Origin::decode(&bad).unwrap_err()), Some(("timeout", "Invalid field type".to_string())));
    let mut written = Value::Mapping(Vec::new());
    Origin::Portal { user: User { id: 1, pseudo: "z".to_string() }, timeout: Timestamp { secs: 0, nanos: 0 } }.encode(&mut written);
    assert!(matches!(written, Value::Mapping(ref e) if e.is_empty()));
}

#[test]
fn combat_origin_rejects_an_unknown_kind() {
    let v = map(vec![("origin", str_value("space"))]);
    assert_eq!(invalid(&Origin::decode(&v).unwrap_err()), Some(("origin", "Bad origin type: `space`".to_string())));
}

#[test]
fn combat_start_writes_its_id_over_the_message_id() {
    let start = Start {
        header: header("h"),
        id: 12,
        user: StartUser { monster: monster() },
        opponent: Opponent { monster: monster(), monsters_count: 2, user: Some(User { id: 5, pseudo: "opp".to_string() }) },
        combat_type: "duel".to_string(),
        env: "forest".to_string(),
        first: true,
    };
    let v = start.value();
    assert!(matches!(v.get("id"), Some(Value::Integer(Integer::U64(12)))));
    assert_eq!(invalid(&Start::decode(&v).unwrap_err()), Some(("id", "Invalid field type".to_string())));
}

#[test]
fn combat_opponent_needs_a_user() {
    let with = Opponent { monster: monster(), monsters_count: 3, user: Some(User { id: 1, pseudo: "u".to_string() }) };
    let back = Opponent::decode(&with.value()).unwrap();
    assert_eq!(back.monsters_count, 3);
    assert_eq!(back.user.unwrap().pseudo, "u");
    let without = Opponent { monster: monster(), monsters_count: 3, user: None };
    assert_eq!(missing(&Opponent::decode(&without.value()).unwrap_err()), Some("user"));
}

#[test]
fn portal_capture_roundtrips() {
    let v = Message::Portal(msg::portal::Message::Capture(PortalCapture { header: header("p"), portal_id: 4, monster: 9 })).value();
    assert_eq!(text(v.get("type")), Some("portal:capture".to_string()));
    match Message::decode(&v).unwrap() {
        Message::Portal(msg::portal::Message::Capture(c)) => assert_eq!((c.portal_id, c.monster), (4, 9)),
        other => panic!("decoded as {:?}", other),
    }
}

#[test]
fn result_success_roundtrips_with_its_data() {
    let data = map(vec![("monsters", Value::Array(vec![1i32.into_value()]))]);
    let r = ResultMessage { header: header("q"), data: ResultData::ok(Some(data)) };
    match Message::decode(&r.value()).unwrap() {
        Message::Result(m) => match m.data {
            ResultData::Success(d) => assert_eq!(d.get("monsters").and_then(|v| v.to::<Vec<i32>>()), Some(vec![1])),
            other => panic!("decoded as {:?}", other),
        },
        other => panic!("decoded as {:?}", other),
    }
}

#[test]
fn result_error_roundtrips() {
    let r = ResultMessage { header: header("q"), data: ResultData::err("Bad", "went wrong", None) };
    let v = r.value();
    assert_eq!(text(v.get("result")), Some("error".to_string()));
    match Message::decode(&v).unwrap() {
        Message::Result(m) => match m.data {
            ResultData::Error { kind, message, data } => {
                assert_eq!((kind.as_str(), message.as_str()), ("Bad", "went wrong"));
                assert!(matches!(data, Value::Mapping(ref e) if e.is_empty()));
            },
            other => panic!("decoded as {:?}", other),
        },
        other => panic!("decoded as {:?}", other),
    }
}

#[test]
fn result_rejects_an_unknown_result_kind() {
    let v = map(vec![("type", str_value("result")), ("id", str_value("1")), ("result", str_value("maybe"))]);
    assert_eq!(
        invalid(&ResultMessage::decode(&v).unwrap_err()),
        Some(("result", "Bad result type `maybe`, should be `success` or `error`".to_string()))
    );
}

#[test]
fn message_rejects_an_unknown_type() {
    let v = map(vec![("type", str_value("dance")), ("id", str_value("1"))]);
    assert_eq!(invalid(&Message::decode(&v).unwrap_err()), Some(("type", "Unknown message type `dance`".to_string())));
    let v = map(vec![("id", str_value("1"))]);
    assert_eq!(missing(&Message::decode(&v).unwrap_err()), Some("type"));
}

#[test]
fn message_header_mut_reaches_the_inner_header() {
    let mut m = Message::Combat(msg::combat::Message::Flee(Flee { header: header("old"), combat: 1 }));
    m.header_mut().id = Some("new".to_string());
    assert_eq!(id_of(m.header()), Some("new".to_string()));
    let mut ko = msg::combat::monster_ko::Message::Replace(Replace { header: header("r"), user_monster_id: 1 });
    assert_eq!(id_of(ko.header()), Some("r".to_string()));
    ko.header_mut().id = None;
    assert_eq!(ko.header().id, None);
}

#[test]
fn result_data_pairs_come_back_in_another_order() {
    let data = map(vec![("a", 1i32.into_value()), ("b", 2i32.into_value()), ("c", 3i32.into_value())]);
    let v = ResultMessage { header: header("q"), data: ResultData::ok(Some(data)) }.value();
    match ResultMessage::decode(&v).unwrap().data {
        ResultData::Success(Value::Mapping(pairs)) => {
            let keys: Vec<String> = pairs
                .iter()
                .map(|(k, _)| match k {
                    Value::String(s) => s.clone(),
                    _ => String::new(),
                })
                .collect();
            assert_eq!(keys, vec!["b".to_string(), "c".to_string(), "a".to_string()]);
        },
        other => panic!("decoded as {:?}", other),
    }
}

#[test]
fn monster_ko_replace_roundtrips_with_its_token() {
    let m = MonsterKoReplace { header: header("x"), auth: Authenticated { token: "tk".to_string() }, user_monster_id: 6 };
    let back = MonsterKoReplace::decode(&m.value()).unwrap();
    assert_eq!(back.auth.token, "tk");
    assert_eq!(back.user_monster_id, 6);
    assert_eq!(id_of(&back.header), Some("x".to_string()));
}

#[test]
fn result_success_keeps_kind_and_message_keys_of_its_data() {
    let data = map(vec![("kind", str_value("k")), ("message", str_value("m"))]);
    let v = ResultMessage { header: header("q"), data: ResultData::ok(Some(data)) }.value();
    match ResultMessage::decode(&v).unwrap().data {
        ResultData::Success(d) => {
            assert_eq!(text(d.get("kind")), Some("k".to_string()));
            assert_eq!(text(d.get("message")), Some("m".to_string()));
        },
        other => panic!("decoded as {:?}", other),
    }
}
