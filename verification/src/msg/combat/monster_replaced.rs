//! The notice that a monster was replaced.
use vstd::prelude::*;
use crate::convert::{IntoValue, str_value};
use crate::error::{Error, ErrorView};
use crate::fields::{self, spec_field};
use crate::msg::{MessageFull, MessageHeader, MessagePart};
use crate::value::{SpecValue, Value, empty_map, spec_set, spec_get};
pub use super::data::monster::Monster;
use super::data::monster::law_monster_roundtrip;

verus! {

/// The notice that a monster entered a combat in place of another.
#[derive(Debug, Clone)]
pub struct MonsterReplaced {
    pub header: MessageHeader,
    pub combat: u32,
    pub monster: Monster,
}

/// The model of a [`MonsterReplaced`].
pub struct MonsterReplacedView {
    pub header: Option<Seq<char>>,
    pub combat: u32,
    pub monster: <Monster as DeepView>::V,
}

impl DeepView for MonsterReplaced {
    type V = MonsterReplacedView;

    open spec fn deep_view(&self) -> MonsterReplacedView {
        MonsterReplacedView {
            header: self.header.deep_view(),
            combat: self.combat,
            monster: self.monster.deep_view(),
        }
    }
}

impl MessagePart for MonsterReplaced {
    open spec fn spec_decode(data: SpecValue) -> Result<MonsterReplacedView, ErrorView> {
        match MessageHeader::spec_decode(data) {
            Err(e) => Err(e),
            Ok(header) => match spec_field::<u32>(data, "combat"@) {
                Err(e) => Err(e),
                Ok(combat) => match spec_field::<Monster>(data, "monster"@) {
                    Err(e) => Err(e),
                    Ok(monster) => Ok(MonsterReplacedView { header, combat, monster }),
                },
            },
        }
    }

    open spec fn spec_encode(m: MonsterReplacedView, data: SpecValue) -> SpecValue {
        let d = data;
        let d = spec_set(d, "type"@, SpecValue::String("combat:monster-replaced"@));
        let d = MessageHeader::spec_encode(m.header, d);
        let d = spec_set(d, "combat"@, u32::spec_into_value(m.combat));
        let d = spec_set(d, "monster"@, Monster::spec_encode(m.monster, empty_map()));
        d
    }

    fn decode(data: &Value) -> (r: Result<MonsterReplaced, Error>) {
        let header = MessageHeader::decode(data)?;
        let combat = fields::get::<u32>(data, "combat")?;
        let monster = fields::get::<Monster>(data, "monster")?;
        Ok(MonsterReplaced { header, combat, monster })
    }

    fn encode(&self, data: &mut Value) {
        data.set("type", str_value("combat:monster-replaced"));
        self.header.encode(data);
        data.set("combat", self.combat.into_value());
        data.set("monster", self.monster.value());
    }
}

impl MessageFull for MonsterReplaced {
    open spec fn spec_header(&self) -> MessageHeader {
        self.header
    }

    open spec fn spec_with_header(&self, h: MessageHeader) -> MonsterReplaced {
        MonsterReplaced { header: h, ..*self }
    }

    fn header(&self) -> (r: &MessageHeader) {
        &self.header
    }

    fn header_mut(&mut self) -> (r: &mut MessageHeader) {
        &mut self.header
    }
}

/// Decoding what a replacement notice encodes into an empty map gives it back.
pub proof fn law_monster_replaced_roundtrip(m: MonsterReplacedView)
    ensures
        MonsterReplaced::spec_decode(MonsterReplaced::spec_encode(m, empty_map())) == Ok::<MonsterReplacedView, ErrorView>(m),
        spec_get(MonsterReplaced::spec_encode(m, empty_map()), "type"@) == Some(SpecValue::String("combat:monster-replaced"@)),
{
    broadcast use crate::value::law_get_after_set, crate::value::lemma_set_is_map;

    reveal_strlit("type");
    reveal_strlit("id");
    reveal_strlit("combat");
    reveal_strlit("monster");
    assert("type"@.len() != "id"@.len());
    assert("type"@.len() != "combat"@.len());
    assert("type"@.len() != "monster"@.len());
    assert("id"@.len() != "combat"@.len());
    assert("id"@.len() != "monster"@.len());
    assert("combat"@.len() != "monster"@.len());
    law_monster_roundtrip(m.monster);
}

/// Decoding reads each field from the key of its name: whatever map it
/// succeeds on, each field of the result holds what its key reads as.
pub proof fn law_monster_replaced_reads_fields(data: SpecValue)
    ensures
        MonsterReplaced::spec_decode(data) matches Ok(m) ==> {
            &&& (MessageHeader::spec_decode(data) matches Ok(v) && v == m.header)
            &&& (spec_field::<u32>(data, "combat"@) matches Ok(v) && v == m.combat)
            &&& (spec_field::<Monster>(data, "monster"@) matches Ok(v) && v == m.monster)
        },
{
}

/// Encoding writes each field under the key of its name, into any map.
pub proof fn law_monster_replaced_writes_fields(m: MonsterReplacedView, data: SpecValue)
    requires
        data is Mapping,
    ensures
        spec_get(MonsterReplaced::spec_encode(m, data), "type"@) == Some(SpecValue::String("combat:monster-replaced"@)),
        spec_get(MonsterReplaced::spec_encode(m, data), "id"@) == Some(Option::<String>::spec_into_value(m.header)),
        spec_get(MonsterReplaced::spec_encode(m, data), "combat"@) == Some(u32::spec_into_value(m.combat)),
        spec_get(MonsterReplaced::spec_encode(m, data), "monster"@) == Some(Monster::spec_encode(m.monster, empty_map())),
{
    broadcast use crate::value::law_get_after_set, crate::value::lemma_set_is_map;

    reveal_strlit("type");
    reveal_strlit("id");
    reveal_strlit("combat");
    reveal_strlit("monster");
    assert("type"@.len() != "id"@.len());
    assert("type"@.len() != "combat"@.len());
    assert("type"@.len() != "monster"@.len());
    assert("id"@.len() != "combat"@.len());
    assert("id"@.len() != "monster"@.len());
    assert("combat"@.len() != "monster"@.len());
}

} // verus!
