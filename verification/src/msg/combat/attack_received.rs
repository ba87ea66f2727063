//! The report of an attack.
use vstd::prelude::*;
use crate::convert::{IntoValue, str_value};
use crate::error::{Error, ErrorView};
use crate::fields::{self, spec_field};
use crate::msg::{MessageFull, MessageHeader, MessagePart};
use crate::value::{SpecValue, Value, empty_map, spec_set, spec_get};
pub use super::data::attack_received::monster::Monster;
use super::data::attack_received::monster::law_attacked_monster_roundtrip;

verus! {

/// The report of an attack: which attack, by which monster, on which target.
#[derive(Debug, Clone)]
pub struct AttackReceived {
    pub header: MessageHeader,
    pub attack: u32,
    pub monster: Monster,
    pub target: Monster,
    pub combat: u32,
}

/// The model of a [`AttackReceived`].
pub struct AttackReceivedView {
    pub header: Option<Seq<char>>,
    pub attack: u32,
    pub monster: <Monster as DeepView>::V,
    pub target: <Monster as DeepView>::V,
    pub combat: u32,
}

impl DeepView for AttackReceived {
    type V = AttackReceivedView;

    open spec fn deep_view(&self) -> AttackReceivedView {
        AttackReceivedView {
            header: self.header.deep_view(),
            attack: self.attack,
            monster: self.monster.deep_view(),
            target: self.target.deep_view(),
            combat: self.combat,
        }
    }
}

impl MessagePart for AttackReceived {
    open spec fn spec_decode(data: SpecValue) -> Result<AttackReceivedView, ErrorView> {
        match MessageHeader::spec_decode(data) {
            Err(e) => Err(e),
            Ok(header) => match spec_field::<u32>(data, "attack"@) {
                Err(e) => Err(e),
                Ok(attack) => match spec_field::<Monster>(data, "monster"@) {
                    Err(e) => Err(e),
                    Ok(monster) => match spec_field::<Monster>(data, "target"@) {
                        Err(e) => Err(e),
                        Ok(target) => match spec_field::<u32>(data, "combat"@) {
                            Err(e) => Err(e),
                            Ok(combat) => Ok(AttackReceivedView { header, attack, monster, target, combat }),
                        },
                    },
                },
            },
        }
    }

    open spec fn spec_encode(m: AttackReceivedView, data: SpecValue) -> SpecValue {
        let d = data;
        let d = spec_set(d, "type"@, SpecValue::String("combat:attack-received"@));
        let d = MessageHeader::spec_encode(m.header, d);
        let d = spec_set(d, "attack"@, u32::spec_into_value(m.attack));
        let d = spec_set(d, "monster"@, Monster::spec_encode(m.monster, empty_map()));
        let d = spec_set(d, "target"@, Monster::spec_encode(m.target, empty_map()));
        let d = spec_set(d, "combat"@, u32::spec_into_value(m.combat));
        d
    }

    fn decode(data: &Value) -> (r: Result<AttackReceived, Error>) {
        let header = MessageHeader::decode(data)?;
        let attack = fields::get::<u32>(data, "attack")?;
        let monster = fields::get::<Monster>(data, "monster")?;
        let target = fields::get::<Monster>(data, "target")?;
        let combat = fields::get::<u32>(data, "combat")?;
        Ok(AttackReceived { header, attack, monster, target, combat })
    }

    fn encode(&self, data: &mut Value) {
        data.set("type", str_value("combat:attack-received"));
        self.header.encode(data);
        data.set("attack", self.attack.into_value());
        data.set("monster", self.monster.value());
        data.set("target", self.target.value());
        data.set("combat", self.combat.into_value());
    }
}

impl MessageFull for AttackReceived {
    open spec fn spec_header(&self) -> MessageHeader {
        self.header
    }

    open spec fn spec_with_header(&self, h: MessageHeader) -> AttackReceived {
        AttackReceived { header: h, ..*self }
    }

    fn header(&self) -> (r: &MessageHeader) {
        &self.header
    }

    fn header_mut(&mut self) -> (r: &mut MessageHeader) {
        &mut self.header
    }
}

/// Decoding what a attack report encodes into an empty map gives it back.
pub proof fn law_attack_received_roundtrip(m: AttackReceivedView)
    ensures
        AttackReceived::spec_decode(AttackReceived::spec_encode(m, empty_map())) == Ok::<AttackReceivedView, ErrorView>(m),
        spec_get(AttackReceived::spec_encode(m, empty_map()), "type"@) == Some(SpecValue::String("combat:attack-received"@)),
{
    broadcast use crate::value::law_get_after_set, crate::value::lemma_set_is_map;

    reveal_strlit("type");
    reveal_strlit("id");
    reveal_strlit("attack");
    reveal_strlit("monster");
    reveal_strlit("target");
    reveal_strlit("combat");
    assert("type"@.len() != "id"@.len());
    assert("type"@.len() != "attack"@.len());
    assert("type"@.len() != "monster"@.len());
    assert("type"@.len() != "target"@.len());
    assert("type"@.len() != "combat"@.len());
    assert("id"@.len() != "attack"@.len());
    assert("id"@.len() != "monster"@.len());
    assert("id"@.len() != "target"@.len());
    assert("id"@.len() != "combat"@.len());
    assert("attack"@.len() != "monster"@.len());
    assert("attack"@[0] == 'a' && "target"@[0] == 't');
    assert("attack"@[0] == 'a' && "combat"@[0] == 'c');
    assert("monster"@.len() != "target"@.len());
    assert("monster"@.len() != "combat"@.len());
    assert("target"@[0] == 't' && "combat"@[0] == 'c');
    law_attacked_monster_roundtrip(m.monster);
    law_attacked_monster_roundtrip(m.target);
}

/// Decoding reads each field from the key of its name: whatever map it
/// succeeds on, each field of the result holds what its key reads as.
pub proof fn law_attack_received_reads_fields(data: SpecValue)
    ensures
        AttackReceived::spec_decode(data) matches Ok(m) ==> {
            &&& (MessageHeader::spec_decode(data) matches Ok(v) && v == m.header)
            &&& (spec_field::<u32>(data, "attack"@) matches Ok(v) && v == m.attack)
            &&& (spec_field::<Monster>(data, "monster"@) matches Ok(v) && v == m.monster)
            &&& (spec_field::<Monster>(data, "target"@) matches Ok(v) && v == m.target)
            &&& (spec_field::<u32>(data, "combat"@) matches Ok(v) && v == m.combat)
        },
{
}

/// Encoding writes each field under the key of its name, into any map.
pub proof fn law_attack_received_writes_fields(m: AttackReceivedView, data: SpecValue)
    requires
        data is Mapping,
    ensures
        spec_get(AttackReceived::spec_encode(m, data), "type"@) == Some(SpecValue::String("combat:attack-received"@)),
        spec_get(AttackReceived::spec_encode(m, data), "id"@) == Some(Option::<String>::spec_into_value(m.header)),
        spec_get(AttackReceived::spec_encode(m, data), "attack"@) == Some(u32::spec_into_value(m.attack)),
        spec_get(AttackReceived::spec_encode(m, data), "monster"@) == Some(Monster::spec_encode(m.monster, empty_map())),
        spec_get(AttackReceived::spec_encode(m, data), "target"@) == Some(Monster::spec_encode(m.target, empty_map())),
        spec_get(AttackReceived::spec_encode(m, data), "combat"@) == Some(u32::spec_into_value(m.combat)),
{
    broadcast use crate::value::law_get_after_set, crate::value::lemma_set_is_map;

    reveal_strlit("type");
    reveal_strlit("id");
    reveal_strlit("attack");
    reveal_strlit("monster");
    reveal_strlit("target");
    reveal_strlit("combat");
    assert("type"@.len() != "id"@.len());
    assert("type"@.len() != "attack"@.len());
    assert("type"@.len() != "monster"@.len());
    assert("type"@.len() != "target"@.len());
    assert("type"@.len() != "combat"@.len());
    assert("id"@.len() != "attack"@.len());
    assert("id"@.len() != "monster"@.len());
    assert("id"@.len() != "target"@.len());
    assert("id"@.len() != "combat"@.len());
    assert("attack"@.len() != "monster"@.len());
    assert("attack"@[0] == 'a' && "target"@[0] == 't');
    assert("attack"@[0] == 'a' && "combat"@[0] == 'c');
    assert("monster"@.len() != "target"@.len());
    assert("monster"@.len() != "combat"@.len());
    assert("target"@[0] == 't' && "combat"@[0] == 'c');
}

} // verus!
