use server::convert::{IntoValue, str_value};
use server::error::Error;
use server::event::{combat_delay_ms, wild_combat_choice, wild_offer};
use server::handlers::auth::{AuthOutcome, auth_reply};
use server::handlers::combat::{OpponentSearch, ask_reply, duel_offers, get_combat_monsters, send_attack_reply};
use server::handlers::portal::{
    CaptureFailure, CaptureLookups, CaptureOutcome, Guard, GuardKind, PortalState, capture_failure_reply, capture_outcome,
    occupied_portal_data, vacant_portal_data,
};
use server::handlers::result::{invalid_message_reply, result_message};
use server::handlers::{Route, route};
use server::msg::combat::available::Origin;
use server::msg::combat::data::User;
use server::msg::combat::{Ask, Flee, SendAttack};
use server::msg::result::{ResultData, ResultMessage};
use server::msg::{self, Authenticate, Message, MessageHeader};
use server::value::{Float, Integer, Value};

fn header(id: &str) -> MessageHeader {
    MessageHeader { id: Some(id.to_string()) }
}

fn map(pairs: Vec<(&str, Value)>) -> Value {
    Value::Mapping(pairs.into_iter().map(|(k, v)| (str_value(k), v)).collect())
}

fn is_error(d: &ResultData, kind: &str, message: &str) -> bool {
    match d {
        ResultData::Error { kind: k, message: m, data } => {
            k == kind && m == message && matches!(data, Value::Mapping(e) if e.is_empty())
        },
        _ => false,
    }
}

fn is_empty_success(d: &ResultData) -> bool {
    matches!(d, ResultData::Success(Value::Mapping(e)) if e.is_empty())
}

fn success(data: Value) -> Message {
    Message::Result(ResultMessage { header: header("r"), data: ResultData::Success(data) })
}

#[test]
fn route_hands_awaited_answers_to_their_conversation() {
    let m = Message::Combat(msg::combat::Message::Flee(Flee { header: header("1"), combat: 2 }));
    assert!(matches!(route(m, true), Route::Conversation(Message::Combat(msg::combat::Message::Flee(_)))));
}

#[test]
fn route_answers_an_unawaited_result() {
    let m = success(Value::Mapping(Vec::new()));
    match route(m, false) {
        Route::Reply(reply) => {
            assert_eq!(reply.header.id, Some("r".to_string()));
            assert!(is_error(&reply.data, "invalid-msg", "Unknown result ID"));
        },
        other => panic!("routed as {:?}", other),
    }
}

#[test]
fn route_answers_flee_with_success() {
    let m = Message::Combat(msg::combat::Message::Flee(Flee { header: header("f"), combat: 2 }));
    match route(m, false) {
        Route::Reply(reply) => {
            assert_eq!(reply.header.id, Some("f".to_string()));
            assert!(is_empty_success(&reply.data));
        },
        other => panic!("routed as {:?}", other),
    }
}

#[test]
fn route_sends_requests_to_their_handlers() {
    let a = Message::Authenticate(Authenticate { header: header("a"), token: "t".to_string() });
    assert!(matches!(route(a, false), Route::Authenticate(x) if x.token == "t"));
    let s = Message::Combat(msg::combat::Message::SendAttack(SendAttack { header: header("s"), target: 1, attack: 2, combat: 3 }));
    assert!(matches!(route(s, false), Route::SendAttack(x) if x.combat == 3));
    let k = Message::Combat(msg::combat::Message::Ask(Ask { header: header("k"), opponent: "o".to_string() }));
    assert!(matches!(route(k, false), Route::Ask(x) if x.opponent == "o"));
    let p = Message::Portal(msg::portal::Message::Capture(msg::portal::Capture { header: header("p"), portal_id: 1, monster: 2 }));
    assert!(matches!(route(p, false), Route::PortalCapture(x) if x.portal_id == 1));
    let ko = Message::Combat(msg::combat::Message::MonsterKo(msg::combat::monster_ko::Message::Base(
        msg::combat::MonsterKo { header: header("m"), monster: 5 },
    )));
    assert!(matches!(route(ko, false), Route::MonsterKo(_)));
}

#[test]
fn route_ignores_what_no_handler_takes() {
    let c = Message::Chat(msg::chat::Message::JoinChannel(msg::chat::JoinChannel { header: header("c"), channel: "x".to_string() }));
    assert!(matches!(route(c, false), Route::Ignore));
}

#[test]
fn auth_reply_for_each_outcome() {
    assert!(is_error(&auth_reply(AuthOutcome::UnreadableToken), "InvalidToken", "Invalid token provided."));
    assert!(is_error(&auth_reply(AuthOutcome::UnknownSession), "InvalidToken", "Invalid token provided."));
    assert!(is_error(&auth_reply(AuthOutcome::DatabaseError), "InternalError", "Internal server error."));
    assert!(is_empty_success(&auth_reply(AuthOutcome::SessionFound)));
}

#[test]
fn send_attack_reply_for_each_case() {
    assert!(is_error(&send_attack_reply(false, true).unwrap(), "NotAuthenticated", "You are not authenticated on the server"));
    assert!(is_error(&send_attack_reply(true, false).unwrap(), "InvalidCombat", "Invalid combat ID"));
    assert!(send_attack_reply(true, true).is_none());
}

#[test]
fn ask_reply_for_each_case() {
    assert!(is_error(&ask_reply(false, OpponentSearch::Connected), "NotAuthenticated", "You are not authenticated on the server"));
    assert!(is_error(&ask_reply(true, OpponentSearch::NoSuchUser), "InvalidUser", "No opponent named like that."));
    assert!(is_error(&ask_reply(true, OpponentSearch::NotConnected), "InvalidUser", "User not connected"));
    assert!(is_empty_success(&ask_reply(true, OpponentSearch::Connected)));
}

#[test]
fn duel_offers_name_the_other_player() {
    let (for_opponent, for_user) = duel_offers(&header("d"), User { id: 1, pseudo: "ann".to_string() }, 2, "bob".to_string());
    assert_eq!(for_opponent.header.id, Some("d".to_string()));
    assert_eq!(for_user.header.id, Some("d".to_string()));
    assert_eq!((for_opponent.monsters_max_count, for_user.monsters_max_count), (4, 4));
    assert!(matches!(for_opponent.origin, Origin::Duel { ref user } if user.id == 1 && user.pseudo == "ann"));
    assert!(matches!(for_user.origin, Origin::Duel { ref user } if user.id == 2 && user.pseudo == "bob"));
}

#[test]
fn get_combat_monsters_reads_a_success() {
    let m = success(map(vec![("monsters", Value::Array(vec![3i32.into_value(), 4i32.into_value()]))]));
    assert_eq!(get_combat_monsters(&m), Ok(vec![3, 4]));
    assert_eq!(get_combat_monsters(&success(map(vec![]))), Ok(vec![]));
    assert_eq!(get_combat_monsters(&success(map(vec![("monsters", Value::Nil)]))), Ok(vec![]));
    let e = Message::Result(ResultMessage { header: header("r"), data: ResultData::err("x", "y", None) });
    assert_eq!(get_combat_monsters(&e), Err(true));
    let other = Message::Combat(msg::combat::Message::Flee(Flee { header: header("f"), combat: 1 }));
    assert_eq!(get_combat_monsters(&other), Err(true));
}

#[test]
fn wild_offer_has_a_fresh_id_and_three_monsters() {
    let (offer, id) = wild_offer();
    assert_eq!(id.len(), 36);
    assert_eq!(offer.header.id, Some(id));
    assert_eq!(offer.monsters_max_count, 3);
    assert!(matches!(offer.origin, Origin::WildMonster { monster_id: 1 }));
}

#[test]
fn wild_combat_choice_needs_acceptance_and_monsters() {
    let yes = success(map(vec![("accept", Value::Boolean(true)), ("monsters", Value::Array(vec![5i32.into_value()]))]));
    assert_eq!(wild_combat_choice(&yes), Some(vec![5]));
    let no = success(map(vec![("accept", Value::Boolean(false)), ("monsters", Value::Array(vec![5i32.into_value()]))]));
    assert_eq!(wild_combat_choice(&no), None);
    let silent = success(map(vec![("monsters", Value::Array(vec![5i32.into_value()]))]));
    assert_eq!(wild_combat_choice(&silent), None);
    let none = success(map(vec![("accept", Value::Boolean(true)), ("monsters", Value::Array(vec![]))]));
    assert_eq!(wild_combat_choice(&none), None);
    let bad = success(map(vec![("accept", Value::Boolean(true)), ("monsters", Value::Nil)]));
    assert_eq!(wild_combat_choice(&bad), None);
    let err = Message::Result(ResultMessage { header: header("r"), data: ResultData::err("x", "y", None) });
    assert_eq!(wild_combat_choice(&err), None);
}

#[test]
fn combat_delay_is_between_140_and_260_ms() {
    for _ in 0..200 {
        let d = combat_delay_ms();
        assert!((140..260).contains(&d));
    }
}

#[test]
fn capture_failure_replies() {
    assert!(is_error(&capture_failure_reply(CaptureFailure::UnknownPortal), "InvalidPortal", "This portal does not exist."));
    assert!(is_error(&capture_failure_reply(CaptureFailure::UnknownMonster), "InvalidMonster", "This monster does not exist"));
    assert!(is_error(&capture_failure_reply(CaptureFailure::UserLookup), "internal", "internal server error"));
    assert!(is_error(&capture_failure_reply(CaptureFailure::Internal), "internal", "Internal server error"));
}

#[test]
fn portal_data_maps() {
    let v = vacant_portal_data();
    assert!(matches!(v.get("state"), Some(Value::String(s)) if s == "vacant"));
    let hp = Value::Float(Float::F64(32.0f64.to_bits()));
    let o = occupied_portal_data(7, "owner".to_string(), "Rex".to_string(), 3, 11, hp, 4);
    assert!(matches!(o.get("state"), Some(Value::String(s)) if s == "occupied"));
    assert!(matches!(o.lookup("owner.id"), Some(Value::Integer(Integer::I64(7)))));
    assert!(matches!(o.lookup("owner.pseudo"), Some(Value::String(s)) if s == "owner"));
    assert!(matches!(o.lookup("monster.id"), Some(Value::Integer(Integer::I64(1)))));
    assert!(matches!(o.lookup("monster.name"), Some(Value::String(s)) if s == "Rex"));
    assert!(matches!(o.lookup("monster.monster_id"), Some(Value::Integer(Integer::I64(3)))));
    assert!(matches!(o.lookup("monster.user_monster_id"), Some(Value::Integer(Integer::I64(11)))));
    assert!(matches!(o.lookup("monster.hp"), Some(Value::Float(Float::F64(b))) if f64::from_bits(*b) == 32.0));
    assert!(matches!(o.lookup("monster.level"), Some(Value::Integer(Integer::I64(4)))));
}

#[test]
fn result_message_keeps_the_request_id() {
    let r = result_message(&header("z"), ResultData::ok(None));
    assert_eq!(r.header.id, Some("z".to_string()));
    assert!(is_empty_success(&r.data));
}

#[test]
fn invalid_message_reply_describes_the_error() {
    let r = invalid_message_reply(&Error::MissingField("type"));
    assert_eq!(r.header.id.as_ref().map(|s| s.len()), Some(36));
    assert!(is_error(&r.data, "InvalidMsg", "Missing message field"));
    let r = invalid_message_reply(&Error::InvalidField("id", "x".to_string()));
    assert!(is_error(&r.data, "InvalidMsg", "Invalid message field"));
}

#[test]
fn display_name_shows_the_pseudo_and_the_address() {
    assert_eq!(server::conn::display_name(Some("ann"), "10.0.0.1:4000"), "ann (10.0.0.1:4000)");
    assert_eq!(server::conn::display_name(None, "10.0.0.1:4000"), "10.0.0.1:4000");
}

#[test]
fn read_error_reply_is_an_internal_error() {
    let r = server::conn::read_error_reply("unexpected end of file");
    assert_eq!(r.header.id.as_ref().map(|s| s.len()), Some(36));
    assert!(is_error(&r.data, "internal", "unexpected end of file"));
}

fn lookups(captured_by: Option<i32>) -> CaptureLookups {
    CaptureLookups {
        portal: Some(PortalState { id: 1, captured_by, monster_on: Some(5) }),
        user_monster: Some(2),
        monster: Some(3),
        user: Some(4),
        owner_pseudo: Some("holder".to_string()),
        guard: Some(Guard { id: 5, surname: "Rex".to_string(), level: 9 }),
        guard_kind: Some(GuardKind { id: 6, hp: Value::Float(Float::F64(10.0f64.to_bits())) }),
    }
}

#[test]
fn capture_outcome_of_a_free_portal() {
    use_outcome(lookups(None), |o| matches!(o, CaptureOutcome::Vacant(d) if matches!(d.get("state"), Some(Value::String(s)) if s == "vacant")));
}

#[test]
fn capture_outcome_of_a_held_portal() {
    use_outcome(lookups(Some(8)), |o| match o {
        CaptureOutcome::Occupied(d) => {
            matches!(d.lookup("owner.id"), Some(Value::Integer(Integer::I64(8))))
                && matches!(d.lookup("monster.user_monster_id"), Some(Value::Integer(Integer::I64(5))))
                && matches!(d.lookup("monster.monster_id"), Some(Value::Integer(Integer::I64(6))))
                && matches!(d.lookup("monster.level"), Some(Value::Integer(Integer::I64(9))))
        },
        _ => false,
    });
}

#[test]
fn capture_outcome_reports_the_first_failed_lookup() {
    let mut l = lookups(Some(8));
    l.portal = None;
    l.user = None;
    use_outcome(l, |o| matches!(o, CaptureOutcome::Failed(CaptureFailure::UnknownPortal)));
    let mut l = lookups(Some(8));
    l.user_monster = None;
    use_outcome(l, |o| matches!(o, CaptureOutcome::Failed(CaptureFailure::UnknownMonster)));
    let mut l = lookups(Some(8));
    l.monster = None;
    use_outcome(l, |o| matches!(o, CaptureOutcome::Failed(CaptureFailure::Internal)));
    let mut l = lookups(Some(8));
    l.user = None;
    use_outcome(l, |o| matches!(o, CaptureOutcome::Failed(CaptureFailure::UserLookup)));
    let mut l = lookups(Some(8));
    l.guard_kind = None;
    use_outcome(l, |o| matches!(o, CaptureOutcome::Failed(CaptureFailure::Internal)));
    let mut l = lookups(None);
    l.guard = None;
    use_outcome(l, |o| matches!(o, CaptureOutcome::Vacant(_)));
}

fn use_outcome(l: CaptureLookups, check: impl Fn(&CaptureOutcome) -> bool) {
    let o = capture_outcome(l);
    assert!(check(&o), "unexpected outcome {:?}", o);
}

#[test]
fn delay_after_adds_140() {
    assert_eq!(server::event::delay_after(0), 140);
    assert_eq!(server::event::delay_after(119), 259);
}

#[test]
fn occupied_follow_up_needs_a_connected_holder() {
    assert_eq!(server::handlers::portal::occupied_follow_up(true, Some(2), Some(5)).ok(), Some((2, 5)));
    for (c, s, g) in [(false, Some(2), Some(5)), (true, None, Some(5)), (true, Some(2), None)] {
        match server::handlers::portal::occupied_follow_up(c, s, g) {
            Err(d) => assert!(is_error(&d, "internal", "Internal server error")),
            Ok(x) => panic!("unexpected combat {:?}", x),
        }
    }
}
