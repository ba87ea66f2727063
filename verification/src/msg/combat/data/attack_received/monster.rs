//! A monster as an attack report describes it.
use vstd::prelude::*;
use crate::convert::{FromValue, IntoValue};
use crate::error::{Error, ErrorView};
use crate::fields::{self, spec_field};
use crate::msg::{MessagePart};
use crate::value::{SpecValue, Value, empty_map, spec_set, spec_get};

verus! {

/// A monster in an attack report: its id and its hit points.
#[derive(Debug, Clone)]
pub struct Monster {
    pub id: u32,
    pub hp: u16,
}

/// The model of a [`Monster`].
pub struct MonsterView {
    pub id: u32,
    pub hp: u16,
}

impl DeepView for Monster {
    type V = MonsterView;

    open spec fn deep_view(&self) -> MonsterView {
        MonsterView {
            id: self.id,
            hp: self.hp,
        }
    }
}

impl MessagePart for Monster {
    open spec fn spec_decode(data: SpecValue) -> Result<MonsterView, ErrorView> {
        match spec_field::<u32>(data, "id"@) {
            Err(e) => Err(e),
            Ok(id) => match spec_field::<u16>(data, "hp"@) {
                Err(e) => Err(e),
                Ok(hp) => Ok(MonsterView { id, hp }),
            },
        }
    }

    open spec fn spec_encode(m: MonsterView, data: SpecValue) -> SpecValue {
        let d = data;
        let d = spec_set(d, "id"@, u32::spec_into_value(m.id));
        let d = spec_set(d, "hp"@, u16::spec_into_value(m.hp));
        d
    }

    fn decode(data: &Value) -> (r: Result<Monster, Error>) {
        let id = fields::get::<u32>(data, "id")?;
        let hp = fields::get::<u16>(data, "hp")?;
        Ok(Monster { id, hp })
    }

    fn encode(&self, data: &mut Value) {
        data.set("id", self.id.into_value());
        data.set("hp", self.hp.into_value());
    }
}

impl FromValue for Monster {
    /// What decodes as a monster.
    open spec fn spec_from_value(v: SpecValue) -> Option<MonsterView> {
        match Self::spec_decode(v) {
            Ok(m) => Some(m),
            Err(_) => None,
        }
    }

    fn from_value(value: &Value) -> (r: Option<Monster>) {
        match Self::decode(value) {
            Ok(m) => Some(m),
            Err(_) => None,
        }
    }
}

/// Decoding what a monster encodes into an empty map gives it back.
pub proof fn law_attacked_monster_roundtrip(m: MonsterView)
    ensures
        Monster::spec_decode(Monster::spec_encode(m, empty_map())) == Ok::<MonsterView, ErrorView>(m),
{
    broadcast use crate::value::law_get_after_set, crate::value::lemma_set_is_map;

    reveal_strlit("id");
    reveal_strlit("hp");
    assert("id"@[0] == 'i' && "hp"@[0] == 'h');
}

/// Decoding reads each field from the key of its name: whatever map it
/// succeeds on, each field of the result holds what its key reads as.
pub proof fn law_attacked_monster_reads_fields(data: SpecValue)
    ensures
        Monster::spec_decode(data) matches Ok(m) ==> {
            &&& (spec_field::<u32>(data, "id"@) matches Ok(v) && v == m.id)
            &&& (spec_field::<u16>(data, "hp"@) matches Ok(v) && v == m.hp)
        },
{
}

/// Encoding writes each field under the key of its name, into any map.
pub proof fn law_attacked_monster_writes_fields(m: MonsterView, data: SpecValue)
    requires
        data is Mapping,
    ensures
        spec_get(Monster::spec_encode(m, data), "id"@) == Some(u32::spec_into_value(m.id)),
        spec_get(Monster::spec_encode(m, data), "hp"@) == Some(u16::spec_into_value(m.hp)),
{
    broadcast use crate::value::law_get_after_set, crate::value::lemma_set_is_map;

    reveal_strlit("id");
    reveal_strlit("hp");
    assert("id"@[0] == 'i' && "hp"@[0] == 'h');
}

} // verus!
