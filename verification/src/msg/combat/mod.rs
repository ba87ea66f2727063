//! Combat messages.
use vstd::prelude::*;
use vstd::string::StringExecFns;
use crate::error::{Error, ErrorView};
use crate::fields::{self, spec_field};
use crate::msg::{MessageFull, MessageHeader, MessagePart, unknown_type, unknown_type_text};
use crate::value::{SpecValue, Value, empty_map, spec_get};

pub mod data;

pub mod ask;
pub mod attack_received;
pub mod available;
pub mod end;
pub mod flee;
pub mod monster_ko;
pub mod monster_ko_replace;
pub mod monster_replaced;
pub mod send_attack;
pub mod start;

pub use self::ask::{Ask, AskView};
pub use self::attack_received::{AttackReceived, AttackReceivedView};
pub use self::available::{Available, AvailableView};
pub use self::end::{End, EndView};
pub use self::flee::{Flee, FleeView};
pub use self::monster_ko::MonsterKo;
pub use self::monster_replaced::{MonsterReplaced, MonsterReplacedView};
pub use self::send_attack::{SendAttack, SendAttackView};
pub use self::start::{Start, StartView};

verus! {

/// A combat message.
#[derive(Debug, Clone)]
pub enum Message {
    Ask(Ask),
    Available(Available),
    Start(Start),
    SendAttack(SendAttack),
    AttackReceived(AttackReceived),
    Flee(Flee),
    End(End),
    MonsterReplaced(MonsterReplaced),
    MonsterKo(monster_ko::Message),
}

/// The model of a [`Message`].
pub enum MessageView {
    Ask(AskView),
    Available(AvailableView),
    Start(StartView),
    SendAttack(SendAttackView),
    AttackReceived(AttackReceivedView),
    Flee(FleeView),
    End(EndView),
    MonsterReplaced(MonsterReplacedView),
    MonsterKo(monster_ko::MessageView),
}

impl DeepView for Message {
    type V = MessageView;

    open spec fn deep_view(&self) -> MessageView {
        match self {
            Message::Ask(m) => MessageView::Ask(m.deep_view()),
            Message::Available(m) => MessageView::Available(m.deep_view()),
            Message::Start(m) => MessageView::Start(m.deep_view()),
            Message::SendAttack(m) => MessageView::SendAttack(m.deep_view()),
            Message::AttackReceived(m) => MessageView::AttackReceived(m.deep_view()),
            Message::Flee(m) => MessageView::Flee(m.deep_view()),
            Message::End(m) => MessageView::End(m.deep_view()),
            Message::MonsterReplaced(m) => MessageView::MonsterReplaced(m.deep_view()),
            Message::MonsterKo(m) => MessageView::MonsterKo(m.deep_view()),
        }
    }
}

impl MessagePart for Message {
    /// The kinds of messages that have their own families are tried first, in order;
    /// then the `type` field picks the message.
    open spec fn spec_decode(data: SpecValue) -> Result<MessageView, ErrorView> {
        match monster_ko::Message::spec_decode(data) {
            Ok(m) => Ok(MessageView::MonsterKo(m)),
            Err(_) => match spec_field::<String>(data, "type"@) {
                Err(e) => Err(e),
                Ok(t) => if t == "combat:ask"@ {
                    match Ask::spec_decode(data) {
                        Ok(m) => Ok(MessageView::Ask(m)),
                        Err(e) => Err(e),
                    }
                } else {
                    if t == "combat:available"@ {
                        match Available::spec_decode(data) {
                            Ok(m) => Ok(MessageView::Available(m)),
                            Err(e) => Err(e),
                        }
                    } else {
                        if t == "combat:start"@ {
                            match Start::spec_decode(data) {
                                Ok(m) => Ok(MessageView::Start(m)),
                                Err(e) => Err(e),
                            }
                        } else {
                            if t == "combat:send-attack"@ {
                                match SendAttack::spec_decode(data) {
                                    Ok(m) => Ok(MessageView::SendAttack(m)),
                                    Err(e) => Err(e),
                                }
                            } else {
                                if t == "combat:attack-received"@ {
                                    match AttackReceived::spec_decode(data) {
                                        Ok(m) => Ok(MessageView::AttackReceived(m)),
                                        Err(e) => Err(e),
                                    }
                                } else {
                                    if t == "combat:flee"@ {
                                        match Flee::spec_decode(data) {
                                            Ok(m) => Ok(MessageView::Flee(m)),
                                            Err(e) => Err(e),
                                        }
                                    } else {
                                        if t == "combat:end"@ {
                                            match End::spec_decode(data) {
                                                Ok(m) => Ok(MessageView::End(m)),
                                                Err(e) => Err(e),
                                            }
                                        } else {
                                            if t == "combat:monster-replaced"@ {
                                                match MonsterReplaced::spec_decode(data) {
                                                    Ok(m) => Ok(MessageView::MonsterReplaced(m)),
                                                    Err(e) => Err(e),
                                                }
                                            } else {
                                                Err(ErrorView::InvalidField("type"@, unknown_type_text(t)))
                                            }
                                        }
                                    }
                                }
                            }
                        }
                    }
                },
            },
        }
    }

    open spec fn spec_encode(m: MessageView, data: SpecValue) -> SpecValue {
        match m {
            MessageView::Ask(msg) => Ask::spec_encode(msg, data),
            MessageView::Available(msg) => Available::spec_encode(msg, data),
            MessageView::Start(msg) => Start::spec_encode(msg, data),
            MessageView::SendAttack(msg) => SendAttack::spec_encode(msg, data),
            MessageView::AttackReceived(msg) => AttackReceived::spec_encode(msg, data),
            MessageView::Flee(msg) => Flee::spec_encode(msg, data),
            MessageView::End(msg) => End::spec_encode(msg, data),
            MessageView::MonsterReplaced(msg) => MonsterReplaced::spec_encode(msg, data),
            MessageView::MonsterKo(msg) => monster_ko::Message::spec_encode(msg, data),
        }
    }

    fn decode(data: &Value) -> (r: Result<Message, Error>) {
        if let Ok(msg) = monster_ko::Message::decode(data) {
            return Ok(Message::MonsterKo(msg));
        }
        let t = fields::get::<String>(data, "type")?;
        if t == String::from_str("combat:ask") {
            match Ask::decode(data) {
                Ok(msg) => Ok(Message::Ask(msg)),
                Err(e) => Err(e),
            }
        } else if t == String::from_str("combat:available") {
            match Available::decode(data) {
                Ok(msg) => Ok(Message::Available(msg)),
                Err(e) => Err(e),
            }
        } else if t == String::from_str("combat:start") {
            match Start::decode(data) {
                Ok(msg) => Ok(Message::Start(msg)),
                Err(e) => Err(e),
            }
        } else if t == String::from_str("combat:send-attack") {
            match SendAttack::decode(data) {
                Ok(msg) => Ok(Message::SendAttack(msg)),
                Err(e) => Err(e),
            }
        } else if t == String::from_str("combat:attack-received") {
            match AttackReceived::decode(data) {
                Ok(msg) => Ok(Message::AttackReceived(msg)),
                Err(e) => Err(e),
            }
        } else if t == String::from_str("combat:flee") {
            match Flee::decode(data) {
                Ok(msg) => Ok(Message::Flee(msg)),
                Err(e) => Err(e),
            }
        } else if t == String::from_str("combat:end") {
            match End::decode(data) {
                Ok(msg) => Ok(Message::End(msg)),
                Err(e) => Err(e),
            }
        } else if t == String::from_str("combat:monster-replaced") {
            match MonsterReplaced::decode(data) {
                Ok(msg) => Ok(Message::MonsterReplaced(msg)),
                Err(e) => Err(e),
            }
        } else {
            Err(unknown_type(t))
        }
    }

    fn encode(&self, data: &mut Value) {
        match self {
            Message::Ask(msg) => msg.encode(data),
            Message::Available(msg) => msg.encode(data),
            Message::Start(msg) => msg.encode(data),
            Message::SendAttack(msg) => msg.encode(data),
            Message::AttackReceived(msg) => msg.encode(data),
            Message::Flee(msg) => msg.encode(data),
            Message::End(msg) => msg.encode(data),
            Message::MonsterReplaced(msg) => msg.encode(data),
            Message::MonsterKo(msg) => msg.encode(data),
        }
    }
}

impl MessageFull for Message {
    open spec fn spec_header(&self) -> MessageHeader {
        match self {
            Message::Ask(msg) => msg.spec_header(),
            Message::Available(msg) => msg.spec_header(),
            Message::Start(msg) => msg.spec_header(),
            Message::SendAttack(msg) => msg.spec_header(),
            Message::AttackReceived(msg) => msg.spec_header(),
            Message::Flee(msg) => msg.spec_header(),
            Message::End(msg) => msg.spec_header(),
            Message::MonsterReplaced(msg) => msg.spec_header(),
            Message::MonsterKo(msg) => msg.spec_header(),
        }
    }

    open spec fn spec_with_header(&self, h: MessageHeader) -> Message {
        match self {
            Message::Ask(msg) => Message::Ask(msg.spec_with_header(h)),
            Message::Available(msg) => Message::Available(msg.spec_with_header(h)),
            Message::Start(msg) => Message::Start(msg.spec_with_header(h)),
            Message::SendAttack(msg) => Message::SendAttack(msg.spec_with_header(h)),
            Message::AttackReceived(msg) => Message::AttackReceived(msg.spec_with_header(h)),
            Message::Flee(msg) => Message::Flee(msg.spec_with_header(h)),
            Message::End(msg) => Message::End(msg.spec_with_header(h)),
            Message::MonsterReplaced(msg) => Message::MonsterReplaced(msg.spec_with_header(h)),
            Message::MonsterKo(msg) => Message::MonsterKo(msg.spec_with_header(h)),
        }
    }

    fn header(&self) -> (r: &MessageHeader) {
        match self {
            Message::Ask(msg) => msg.header(),
            Message::Available(msg) => msg.header(),
            Message::Start(msg) => msg.header(),
            Message::SendAttack(msg) => msg.header(),
            Message::AttackReceived(msg) => msg.header(),
            Message::Flee(msg) => msg.header(),
            Message::End(msg) => msg.header(),
            Message::MonsterReplaced(msg) => msg.header(),
            Message::MonsterKo(msg) => msg.header(),
        }
    }

    fn header_mut(&mut self) -> (r: &mut MessageHeader) {
        match self {
            Message::Ask(msg) => msg.header_mut(),
            Message::Available(msg) => msg.header_mut(),
            Message::Start(msg) => msg.header_mut(),
            Message::SendAttack(msg) => msg.header_mut(),
            Message::AttackReceived(msg) => msg.header_mut(),
            Message::Flee(msg) => msg.header_mut(),
            Message::End(msg) => msg.header_mut(),
            Message::MonsterReplaced(msg) => msg.header_mut(),
            Message::MonsterKo(msg) => msg.header_mut(),
        }
    }
}

/// The `type` tag that a combat message writes.
pub open spec fn message_tag(m: MessageView) -> Seq<char> {
    match m {
        MessageView::Ask(_) => "combat:ask"@,
        MessageView::Available(_) => "combat:available"@,
        MessageView::Start(_) => "combat:start"@,
        MessageView::SendAttack(_) => "combat:send-attack"@,
        MessageView::AttackReceived(_) => "combat:attack-received"@,
        MessageView::Flee(_) => "combat:flee"@,
        MessageView::End(_) => "combat:end"@,
        MessageView::MonsterReplaced(_) => "combat:monster-replaced"@,
        MessageView::MonsterKo(k) => monster_ko::message_tag(k),
    }
}

/// Whether a combat message comes back from the map it encodes into: all do
/// but an offer (whose maximum count of monsters is never written), a start
/// (whose combat ID is written over the message ID) and a knock-out capture
/// (written under the tag of a replacement).
pub open spec fn roundtrips(m: MessageView) -> bool {
    &&& !(m is Available)
    &&& !(m is Start)
    &&& !(m matches MessageView::MonsterKo(k) && k is Capture)
}

/// Every combat tag begins with `co`, the start of `combat:`.
pub proof fn lemma_combat_tag(m: MessageView)
    ensures
        message_tag(m).len() > 2,
        message_tag(m)[0] == 'c',
        message_tag(m)[1] == 'o',
{
    reveal_strlit("combat:ask");
    reveal_strlit("combat:available");
    reveal_strlit("combat:start");
    reveal_strlit("combat:send-attack");
    reveal_strlit("combat:attack-received");
    reveal_strlit("combat:flee");
    reveal_strlit("combat:end");
    reveal_strlit("combat:monster-replaced");
    reveal_strlit("combat:monster-ko");
    reveal_strlit("combat:monster-ko:capture");
    reveal_strlit("combat:monster-ko:replace");
}

/// A map whose tag does not begin with `c` is no combat message.
pub proof fn lemma_combat_rejects(d: SpecValue, t: Seq<char>)
    requires
        spec_get(d, "type"@) == Some(SpecValue::String(t)),
        t.len() == 0 || t[0] != 'c',
    ensures
        Message::spec_decode(d) is Err,
{
    reveal_strlit("combat:ask");
    reveal_strlit("combat:available");
    reveal_strlit("combat:start");
    reveal_strlit("combat:send-attack");
    reveal_strlit("combat:attack-received");
    reveal_strlit("combat:flee");
    reveal_strlit("combat:end");
    reveal_strlit("combat:monster-replaced");
    reveal_strlit("combat:monster-ko");
    reveal_strlit("combat:monster-ko:capture");
    reveal_strlit("combat:monster-ko:replace");
}

/// Decoding what a combat message encodes into an empty map gives it back,
/// for each message that [`roundtrips`].
pub proof fn law_combat_message_roundtrip(m: MessageView)
    requires
        roundtrips(m),
    ensures
        Message::spec_decode(Message::spec_encode(m, empty_map())) == Ok::<MessageView, ErrorView>(m),
        spec_get(Message::spec_encode(m, empty_map()), "type"@) == Some(SpecValue::String(message_tag(m))),
{
    reveal_strlit("combat:ask");
    reveal_strlit("combat:available");
    reveal_strlit("combat:start");
    reveal_strlit("combat:send-attack");
    reveal_strlit("combat:attack-received");
    reveal_strlit("combat:flee");
    reveal_strlit("combat:end");
    reveal_strlit("combat:monster-replaced");
    reveal_strlit("combat:monster-ko");
    reveal_strlit("combat:monster-ko:capture");
    reveal_strlit("combat:monster-ko:replace");
    assert("combat:ask"@[7] != "combat:end"@[7]);
    match m {
        MessageView::Ask(x) => ask::law_ask_roundtrip(x),
        MessageView::Available(_) => {},
        MessageView::Start(_) => {},
        MessageView::SendAttack(x) => send_attack::law_send_attack_roundtrip(x),
        MessageView::AttackReceived(x) => attack_received::law_attack_received_roundtrip(x),
        MessageView::Flee(x) => flee::law_flee_roundtrip(x),
        MessageView::End(x) => end::law_end_roundtrip(x),
        MessageView::MonsterReplaced(x) => monster_replaced::law_monster_replaced_roundtrip(x),
        MessageView::MonsterKo(k) => monster_ko::law_ko_message_roundtrip(k),
    }
}

} // verus!
