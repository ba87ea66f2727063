//! Replacing a knocked-out monster, with the sender's credentials.
use vstd::prelude::*;
use crate::convert::{IntoValue, str_value};
use crate::error::{Error, ErrorView};
use crate::fields::{self, spec_field};
use crate::msg::{MessageHeader, MessagePart};
use crate::value::{SpecValue, Value, empty_map, spec_set, spec_get};
use crate::msg::states::auth::Authenticated;

verus! {

/// The monster that replaces a knocked-out one, with the sender's token written flat into the map.
#[derive(Debug, Clone)]
pub struct MonsterKoReplace {
    pub header: MessageHeader,
    pub auth: Authenticated,
    pub user_monster_id: u32,
}

/// The model of a [`MonsterKoReplace`].
pub struct MonsterKoReplaceView {
    pub header: Option<Seq<char>>,
    pub auth: <Authenticated as DeepView>::V,
    pub user_monster_id: u32,
}

impl DeepView for MonsterKoReplace {
    type V = MonsterKoReplaceView;

    open spec fn deep_view(&self) -> MonsterKoReplaceView {
        MonsterKoReplaceView {
            header: self.header.deep_view(),
            auth: self.auth.deep_view(),
            user_monster_id: self.user_monster_id,
        }
    }
}

impl MessagePart for MonsterKoReplace {
    open spec fn spec_decode(data: SpecValue) -> Result<MonsterKoReplaceView, ErrorView> {
        match MessageHeader::spec_decode(data) {
            Err(e) => Err(e),
            Ok(header) => match Authenticated::spec_decode(data) {
                Err(e) => Err(e),
                Ok(auth) => match spec_field::<u32>(data, "user_monster_id"@) {
                    Err(e) => Err(e),
                    Ok(user_monster_id) => Ok(MonsterKoReplaceView { header, auth, user_monster_id }),
                },
            },
        }
    }

    open spec fn spec_encode(m: MonsterKoReplaceView, data: SpecValue) -> SpecValue {
        let d = data;
        let d = spec_set(d, "type"@, SpecValue::String("combat:monster-ko:replace"@));
        let d = MessageHeader::spec_encode(m.header, d);
        let d = Authenticated::spec_encode(m.auth, d);
        let d = spec_set(d, "user_monster_id"@, u32::spec_into_value(m.user_monster_id));
        d
    }

    fn decode(data: &Value) -> (r: Result<MonsterKoReplace, Error>) {
        let header = MessageHeader::decode(data)?;
        let auth = Authenticated::decode(data)?;
        let user_monster_id = fields::get::<u32>(data, "user_monster_id")?;
        Ok(MonsterKoReplace { header, auth, user_monster_id })
    }

    fn encode(&self, data: &mut Value) {
        data.set("type", str_value("combat:monster-ko:replace"));
        self.header.encode(data);
        self.auth.encode(data);
        data.set("user_monster_id", self.user_monster_id.into_value());
    }
}

/// Decoding what a replacement answer encodes into an empty map gives it back.
pub proof fn law_monster_ko_replace_roundtrip(m: MonsterKoReplaceView)
    ensures
        MonsterKoReplace::spec_decode(MonsterKoReplace::spec_encode(m, empty_map())) == Ok::<MonsterKoReplaceView, ErrorView>(m),
{
    broadcast use crate::value::law_get_after_set, crate::value::lemma_set_is_map;

    reveal_strlit("type");
    reveal_strlit("id");
    reveal_strlit("token");
    reveal_strlit("user_monster_id");
    assert("type"@.len() != "id"@.len());
    assert("type"@.len() != "token"@.len());
    assert("type"@.len() != "user_monster_id"@.len());
    assert("id"@.len() != "token"@.len());
    assert("id"@.len() != "user_monster_id"@.len());
    assert("token"@.len() != "user_monster_id"@.len());
}

/// Decoding reads each field from the key of its name: whatever map it
/// succeeds on, each field of the result holds what its key reads as.
pub proof fn law_monster_ko_replace_reads_fields(data: SpecValue)
    ensures
        MonsterKoReplace::spec_decode(data) matches Ok(m) ==> {
            &&& (MessageHeader::spec_decode(data) matches Ok(v) && v == m.header)
            &&& (Authenticated::spec_decode(data) matches Ok(v) && v == m.auth)
            &&& (spec_field::<u32>(data, "user_monster_id"@) matches Ok(v) && v == m.user_monster_id)
        },
{
}

/// Encoding writes each field under the key of its name, into any map.
pub proof fn law_monster_ko_replace_writes_fields(m: MonsterKoReplaceView, data: SpecValue)
    requires
        data is Mapping,
    ensures
        spec_get(MonsterKoReplace::spec_encode(m, data), "type"@) == Some(SpecValue::String("combat:monster-ko:replace"@)),
        spec_get(MonsterKoReplace::spec_encode(m, data), "id"@) == Some(Option::<String>::spec_into_value(m.header)),
        spec_get(MonsterKoReplace::spec_encode(m, data), "token"@) == Some(String::spec_into_value(m.auth.token)),
        spec_get(MonsterKoReplace::spec_encode(m, data), "user_monster_id"@) == Some(u32::spec_into_value(m.user_monster_id)),
{
    broadcast use crate::value::law_get_after_set, crate::value::lemma_set_is_map;

    reveal_strlit("type");
    reveal_strlit("id");
    reveal_strlit("token");
    reveal_strlit("user_monster_id");
    assert("type"@.len() != "id"@.len());
    assert("type"@.len() != "token"@.len());
    assert("type"@.len() != "user_monster_id"@.len());
    assert("id"@.len() != "token"@.len());
    assert("id"@.len() != "user_monster_id"@.len());
    assert("token"@.len() != "user_monster_id"@.len());
}

} // verus!
