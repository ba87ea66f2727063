//! A monster as combat messages describe it.
use vstd::prelude::*;
use crate::convert::{FromValue, IntoValue, str_value};
use crate::error::{Error, ErrorView};
use crate::fields::{self, spec_field};
use crate::msg::{MessagePart};
use crate::value::{SpecValue, Value, empty_map, spec_set, spec_get};

verus! {

/// A monster taking part in a combat.
#[derive(Debug, Clone)]
pub struct Monster {
    pub id: u32,
    pub name: String,
    pub monster_id: u32,
    pub user_monster_id: u32,
    pub hp: u16,
    pub level: u8,
}

/// The model of a [`Monster`].
pub struct MonsterView {
    pub id: u32,
    pub name: Seq<char>,
    pub monster_id: u32,
    pub user_monster_id: u32,
    pub hp: u16,
    pub level: u8,
}

impl DeepView for Monster {
    type V = MonsterView;

    open spec fn deep_view(&self) -> MonsterView {
        MonsterView {
            id: self.id,
            name: self.name@,
            monster_id: self.monster_id,
            user_monster_id: self.user_monster_id,
            hp: self.hp,
            level: self.level,
        }
    }
}

impl MessagePart for Monster {
    open spec fn spec_decode(data: SpecValue) -> Result<MonsterView, ErrorView> {
        match spec_field::<u32>(data, "id"@) {
            Err(e) => Err(e),
            Ok(id) => match spec_field::<String>(data, "name"@) {
                Err(e) => Err(e),
                Ok(name) => match spec_field::<u32>(data, "monster_id"@) {
                    Err(e) => Err(e),
                    Ok(monster_id) => match spec_field::<u32>(data, "user_monster_id"@) {
                        Err(e) => Err(e),
                        Ok(user_monster_id) => match spec_field::<u16>(data, "hp"@) {
                            Err(e) => Err(e),
                            Ok(hp) => match spec_field::<u8>(data, "level"@) {
                                Err(e) => Err(e),
                                Ok(level) => Ok(MonsterView { id, name, monster_id, user_monster_id, hp, level }),
                            },
                        },
                    },
                },
            },
        }
    }

    open spec fn spec_encode(m: MonsterView, data: SpecValue) -> SpecValue {
        let d = data;
        let d = spec_set(d, "type"@, SpecValue::String("combat:Monster"@));
        let d = spec_set(d, "id"@, u32::spec_into_value(m.id));
        let d = spec_set(d, "name"@, String::spec_into_value(m.name));
        let d = spec_set(d, "monster_id"@, u32::spec_into_value(m.monster_id));
        let d = spec_set(d, "user_monster_id"@, u32::spec_into_value(m.user_monster_id));
        let d = spec_set(d, "hp"@, u16::spec_into_value(m.hp));
        let d = spec_set(d, "level"@, u8::spec_into_value(m.level));
        d
    }

    fn decode(data: &Value) -> (r: Result<Monster, Error>) {
        let id = fields::get::<u32>(data, "id")?;
        let name = fields::get::<String>(data, "name")?;
        let monster_id = fields::get::<u32>(data, "monster_id")?;
        let user_monster_id = fields::get::<u32>(data, "user_monster_id")?;
        let hp = fields::get::<u16>(data, "hp")?;
        let level = fields::get::<u8>(data, "level")?;
        Ok(Monster { id, name, monster_id, user_monster_id, hp, level })
    }

    fn encode(&self, data: &mut Value) {
        data.set("type", str_value("combat:Monster"));
        data.set("id", self.id.into_value());
        data.set("name", self.name.clone().into_value());
        data.set("monster_id", self.monster_id.into_value());
        data.set("user_monster_id", self.user_monster_id.into_value());
        data.set("hp", self.hp.into_value());
        data.set("level", self.level.into_value());
    }
}

impl FromValue for Monster {
    /// What decodes as a monster.
    open spec fn spec_from_value(v: SpecValue) -> Option<MonsterView> {
        match Self::spec_decode(v) {
            Ok(m) => Some(m),
            Err(_) => None,
        }
    }

    fn from_value(value: &Value) -> (r: Option<Monster>) {
        match Self::decode(value) {
            Ok(m) => Some(m),
            Err(_) => None,
        }
    }
}

/// Decoding what a monster encodes into an empty map gives it back.
pub proof fn law_monster_roundtrip(m: MonsterView)
    ensures
        Monster::spec_decode(Monster::spec_encode(m, empty_map())) == Ok::<MonsterView, ErrorView>(m),
{
    broadcast use crate::value::law_get_after_set, crate::value::lemma_set_is_map;

    reveal_strlit("type");
    reveal_strlit("id");
    reveal_strlit("name");
    reveal_strlit("monster_id");
    reveal_strlit("user_monster_id");
    reveal_strlit("hp");
    reveal_strlit("level");
    assert("type"@.len() != "id"@.len());
    assert("type"@[0] == 't' && "name"@[0] == 'n');
    assert("type"@.len() != "monster_id"@.len());
    assert("type"@.len() != "user_monster_id"@.len());
    assert("type"@.len() != "hp"@.len());
    assert("type"@.len() != "level"@.len());
    assert("id"@.len() != "name"@.len());
    assert("id"@.len() != "monster_id"@.len());
    assert("id"@.len() != "user_monster_id"@.len());
    assert("id"@[0] == 'i' && "hp"@[0] == 'h');
    assert("id"@.len() != "level"@.len());
    assert("name"@.len() != "monster_id"@.len());
    assert("name"@.len() != "user_monster_id"@.len());
    assert("name"@.len() != "hp"@.len());
    assert("name"@.len() != "level"@.len());
    assert("monster_id"@.len() != "user_monster_id"@.len());
    assert("monster_id"@.len() != "hp"@.len());
    assert("monster_id"@.len() != "level"@.len());
    assert("user_monster_id"@.len() != "hp"@.len());
    assert("user_monster_id"@.len() != "level"@.len());
    assert("hp"@.len() != "level"@.len());
}

/// Decoding reads each field from the key of its name: whatever map it
/// succeeds on, each field of the result holds what its key reads as.
pub proof fn law_monster_reads_fields(data: SpecValue)
    ensures
        Monster::spec_decode(data) matches Ok(m) ==> {
            &&& (spec_field::<u32>(data, "id"@) matches Ok(v) && v == m.id)
            &&& (spec_field::<String>(data, "name"@) matches Ok(v) && v == m.name)
            &&& (spec_field::<u32>(data, "monster_id"@) matches Ok(v) && v == m.monster_id)
            &&& (spec_field::<u32>(data, "user_monster_id"@) matches Ok(v) && v == m.user_monster_id)
            &&& (spec_field::<u16>(data, "hp"@) matches Ok(v) && v == m.hp)
            &&& (spec_field::<u8>(data, "level"@) matches Ok(v) && v == m.level)
        },
{
}

/// Encoding writes each field under the key of its name, into any map.
pub proof fn law_monster_writes_fields(m: MonsterView, data: SpecValue)
    requires
        data is Mapping,
    ensures
        spec_get(Monster::spec_encode(m, data), "type"@) == Some(SpecValue::String("combat:Monster"@)),
        spec_get(Monster::spec_encode(m, data), "id"@) == Some(u32::spec_into_value(m.id)),
        spec_get(Monster::spec_encode(m, data), "name"@) == Some(String::spec_into_value(m.name)),
        spec_get(Monster::spec_encode(m, data), "monster_id"@) == Some(u32::spec_into_value(m.monster_id)),
        spec_get(Monster::spec_encode(m, data), "user_monster_id"@) == Some(u32::spec_into_value(m.user_monster_id)),
        spec_get(Monster::spec_encode(m, data), "hp"@) == Some(u16::spec_into_value(m.hp)),
        spec_get(Monster::spec_encode(m, data), "level"@) == Some(u8::spec_into_value(m.level)),
{
    broadcast use crate::value::law_get_after_set, crate::value::lemma_set_is_map;

    reveal_strlit("type");
    reveal_strlit("id");
    reveal_strlit("name");
    reveal_strlit("monster_id");
    reveal_strlit("user_monster_id");
    reveal_strlit("hp");
    reveal_strlit("level");
    assert("type"@.len() != "id"@.len());
    assert("type"@[0] == 't' && "name"@[0] == 'n');
    assert("type"@.len() != "monster_id"@.len());
    assert("type"@.len() != "user_monster_id"@.len());
    assert("type"@.len() != "hp"@.len());
    assert("type"@.len() != "level"@.len());
    assert("id"@.len() != "name"@.len());
    assert("id"@.len() != "monster_id"@.len());
    assert("id"@.len() != "user_monster_id"@.len());
    assert("id"@[0] == 'i' && "hp"@[0] == 'h');
    assert("id"@.len() != "level"@.len());
    assert("name"@.len() != "monster_id"@.len());
    assert("name"@.len() != "user_monster_id"@.len());
    assert("name"@.len() != "hp"@.len());
    assert("name"@.len() != "level"@.len());
    assert("monster_id"@.len() != "user_monster_id"@.len());
    assert("monster_id"@.len() != "hp"@.len());
    assert("monster_id"@.len() != "level"@.len());
    assert("user_monster_id"@.len() != "hp"@.len());
    assert("user_monster_id"@.len() != "level"@.len());
    assert("hp"@.len() != "level"@.len());
}

} // verus!
