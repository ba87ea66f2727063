//! Replacing a knocked-out monster.
use vstd::prelude::*;
use crate::convert::{IntoValue, str_value};
use crate::error::{Error, ErrorView};
use crate::fields::{self, spec_field};
use crate::msg::{MessageHeader, MessagePart};
use crate::value::{SpecValue, Value, empty_map, spec_set, spec_get};

verus! {

/// The monster that replaces a knocked-out one.
#[derive(Debug, Clone)]
pub struct Replace {
    pub header: MessageHeader,
    pub user_monster_id: u32,
}

/// The model of a [`Replace`].
pub struct ReplaceView {
    pub header: Option<Seq<char>>,
    pub user_monster_id: u32,
}

impl DeepView for Replace {
    type V = ReplaceView;

    open spec fn deep_view(&self) -> ReplaceView {
        ReplaceView {
            header: self.header.deep_view(),
            user_monster_id: self.user_monster_id,
        }
    }
}

impl MessagePart for Replace {
    open spec fn spec_decode(data: SpecValue) -> Result<ReplaceView, ErrorView> {
        match MessageHeader::spec_decode(data) {
            Err(e) => Err(e),
            Ok(header) => match spec_field::<u32>(data, "user_monster_id"@) {
                Err(e) => Err(e),
                Ok(user_monster_id) => Ok(ReplaceView { header, user_monster_id }),
            },
        }
    }

    open spec fn spec_encode(m: ReplaceView, data: SpecValue) -> SpecValue {
        let d = data;
        let d = spec_set(d, "type"@, SpecValue::String("combat:monster-ko:replace"@));
        let d = MessageHeader::spec_encode(m.header, d);
        let d = spec_set(d, "user_monster_id"@, u32::spec_into_value(m.user_monster_id));
        d
    }

    fn decode(data: &Value) -> (r: Result<Replace, Error>) {
        let header = MessageHeader::decode(data)?;
        let user_monster_id = fields::get::<u32>(data, "user_monster_id")?;
        Ok(Replace { header, user_monster_id })
    }

    fn encode(&self, data: &mut Value) {
        data.set("type", str_value("combat:monster-ko:replace"));
        self.header.encode(data);
        data.set("user_monster_id", self.user_monster_id.into_value());
    }
}

/// Decoding what a replacement answer encodes into an empty map gives it back.
pub proof fn law_ko_replace_roundtrip(m: ReplaceView)
    ensures
        Replace::spec_decode(Replace::spec_encode(m, empty_map())) == Ok::<ReplaceView, ErrorView>(m),
        spec_get(Replace::spec_encode(m, empty_map()), "type"@) == Some(SpecValue::String("combat:monster-ko:replace"@)),
{
    broadcast use crate::value::law_get_after_set, crate::value::lemma_set_is_map;

    reveal_strlit("type");
    reveal_strlit("id");
    reveal_strlit("user_monster_id");
    assert("type"@.len() != "id"@.len());
    assert("type"@.len() != "user_monster_id"@.len());
    assert("id"@.len() != "user_monster_id"@.len());
}

/// Decoding reads each field from the key of its name: whatever map it
/// succeeds on, each field of the result holds what its key reads as.
pub proof fn law_ko_replace_reads_fields(data: SpecValue)
    ensures
        Replace::spec_decode(data) matches Ok(m) ==> {
            &&& (MessageHeader::spec_decode(data) matches Ok(v) && v == m.header)
            &&& (spec_field::<u32>(data, "user_monster_id"@) matches Ok(v) && v == m.user_monster_id)
        },
{
}

/// Encoding writes each field under the key of its name, into any map.
pub proof fn law_ko_replace_writes_fields(m: ReplaceView, data: SpecValue)
    requires
        data is Mapping,
    ensures
        spec_get(Replace::spec_encode(m, data), "type"@) == Some(SpecValue::String("combat:monster-ko:replace"@)),
        spec_get(Replace::spec_encode(m, data), "id"@) == Some(Option::<String>::spec_into_value(m.header)),
        spec_get(Replace::spec_encode(m, data), "user_monster_id"@) == Some(u32::spec_into_value(m.user_monster_id)),
{
    broadcast use crate::value::law_get_after_set, crate::value::lemma_set_is_map;

    reveal_strlit("type");
    reveal_strlit("id");
    reveal_strlit("user_monster_id");
    assert("type"@.len() != "id"@.len());
    assert("type"@.len() != "user_monster_id"@.len());
    assert("id"@.len() != "user_monster_id"@.len());
}

} // verus!
