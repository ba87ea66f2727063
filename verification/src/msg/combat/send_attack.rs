//! Attacking in a combat.
use vstd::prelude::*;
use crate::convert::{IntoValue, str_value};
use crate::error::{Error, ErrorView};
use crate::fields::{self, spec_field};
use crate::msg::{MessageFull, MessageHeader, MessagePart};
use crate::value::{SpecValue, Value, empty_map, spec_set, spec_get};

verus! {

/// An attack against a target in a combat.
#[derive(Debug, Clone)]
pub struct SendAttack {
    pub header: MessageHeader,
    pub target: u32,
    pub attack: u32,
    pub combat: u32,
}

/// The model of a [`SendAttack`].
pub struct SendAttackView {
    pub header: Option<Seq<char>>,
    pub target: u32,
    pub attack: u32,
    pub combat: u32,
}

impl DeepView for SendAttack {
    type V = SendAttackView;

    open spec fn deep_view(&self) -> SendAttackView {
        SendAttackView {
            header: self.header.deep_view(),
            target: self.target,
            attack: self.attack,
            combat: self.combat,
        }
    }
}

impl MessagePart for SendAttack {
    open spec fn spec_decode(data: SpecValue) -> Result<SendAttackView, ErrorView> {
        match MessageHeader::spec_decode(data) {
            Err(e) => Err(e),
            Ok(header) => match spec_field::<u32>(data, "target"@) {
                Err(e) => Err(e),
                Ok(target) => match spec_field::<u32>(data, "attack"@) {
                    Err(e) => Err(e),
                    Ok(attack) => match spec_field::<u32>(data, "combat"@) {
                        Err(e) => Err(e),
                        Ok(combat) => Ok(SendAttackView { header, target, attack, combat }),
                    },
                },
            },
        }
    }

    open spec fn spec_encode(m: SendAttackView, data: SpecValue) -> SpecValue {
        let d = data;
        let d = spec_set(d, "type"@, SpecValue::String("combat:send-attack"@));
        let d = MessageHeader::spec_encode(m.header, d);
        let d = spec_set(d, "target"@, u32::spec_into_value(m.target));
        let d = spec_set(d, "attack"@, u32::spec_into_value(m.attack));
        let d = spec_set(d, "combat"@, u32::spec_into_value(m.combat));
        d
    }

    fn decode(data: &Value) -> (r: Result<SendAttack, Error>) {
        let header = MessageHeader::decode(data)?;
        let target = fields::get::<u32>(data, "target")?;
        let attack = fields::get::<u32>(data, "attack")?;
        let combat = fields::get::<u32>(data, "combat")?;
        Ok(SendAttack { header, target, attack, combat })
    }

    fn encode(&self, data: &mut Value) {
        data.set("type", str_value("combat:send-attack"));
        self.header.encode(data);
        data.set("target", self.target.into_value());
        data.set("attack", self.attack.into_value());
        data.set("combat", self.combat.into_value());
    }
}

impl MessageFull for SendAttack {
    open spec fn spec_header(&self) -> MessageHeader {
        self.header
    }

    open spec fn spec_with_header(&self, h: MessageHeader) -> SendAttack {
        SendAttack { header: h, ..*self }
    }

    fn header(&self) -> (r: &MessageHeader) {
        &self.header
    }

    fn header_mut(&mut self) -> (r: &mut MessageHeader) {
        &mut self.header
    }
}

/// Decoding what a attack order encodes into an empty map gives it back.
pub proof fn law_send_attack_roundtrip(m: SendAttackView)
    ensures
        SendAttack::spec_decode(SendAttack::spec_encode(m, empty_map())) == Ok::<SendAttackView, ErrorView>(m),
        spec_get(SendAttack::spec_encode(m, empty_map()), "type"@) == Some(SpecValue::String("combat:send-attack"@)),
{
    broadcast use crate::value::law_get_after_set, crate::value::lemma_set_is_map;

    reveal_strlit("type");
    reveal_strlit("id");
    reveal_strlit("target");
    reveal_strlit("attack");
    reveal_strlit("combat");
    assert("type"@.len() != "id"@.len());
    assert("type"@.len() != "target"@.len());
    assert("type"@.len() != "attack"@.len());
    assert("type"@.len() != "combat"@.len());
    assert("id"@.len() != "target"@.len());
    assert("id"@.len() != "attack"@.len());
    assert("id"@.len() != "combat"@.len());
    assert("target"@[0] == 't' && "attack"@[0] == 'a');
    assert("target"@[0] == 't' && "combat"@[0] == 'c');
    assert("attack"@[0] == 'a' && "combat"@[0] == 'c');
}

/// Decoding reads each field from the key of its name: whatever map it
/// succeeds on, each field of the result holds what its key reads as.
pub proof fn law_send_attack_reads_fields(data: SpecValue)
    ensures
        SendAttack::spec_decode(data) matches Ok(m) ==> {
            &&& (MessageHeader::spec_decode(data) matches Ok(v) && v == m.header)
            &&& (spec_field::<u32>(data, "target"@) matches Ok(v) && v == m.target)
            &&& (spec_field::<u32>(data, "attack"@) matches Ok(v) && v == m.attack)
            &&& (spec_field::<u32>(data, "combat"@) matches Ok(v) && v == m.combat)
        },
{
}

/// Encoding writes each field under the key of its name, into any map.
pub proof fn law_send_attack_writes_fields(m: SendAttackView, data: SpecValue)
    requires
        data is Mapping,
    ensures
        spec_get(SendAttack::spec_encode(m, data), "type"@) == Some(SpecValue::String("combat:send-attack"@)),
        spec_get(SendAttack::spec_encode(m, data), "id"@) == Some(Option::<String>::spec_into_value(m.header)),
        spec_get(SendAttack::spec_encode(m, data), "target"@) == Some(u32::spec_into_value(m.target)),
        spec_get(SendAttack::spec_encode(m, data), "attack"@) == Some(u32::spec_into_value(m.attack)),
        spec_get(SendAttack::spec_encode(m, data), "combat"@) == Some(u32::spec_into_value(m.combat)),
{
    broadcast use crate::value::law_get_after_set, crate::value::lemma_set_is_map;

    reveal_strlit("type");
    reveal_strlit("id");
    reveal_strlit("target");
    reveal_strlit("attack");
    reveal_strlit("combat");
    assert("type"@.len() != "id"@.len());
    assert("type"@.len() != "target"@.len());
    assert("type"@.len() != "attack"@.len());
    assert("type"@.len() != "combat"@.len());
    assert("id"@.len() != "target"@.len());
    assert("id"@.len() != "attack"@.len());
    assert("id"@.len() != "combat"@.len());
    assert("target"@[0] == 't' && "attack"@[0] == 'a');
    assert("target"@[0] == 't' && "combat"@[0] == 'c');
    assert("attack"@[0] == 'a' && "combat"@[0] == 'c');
}

} // verus!
