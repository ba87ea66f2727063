//! The start of a combat.
use vstd::prelude::*;
use crate::convert::{IntoValue, str_value};
use crate::error::{Error, ErrorView};
use crate::fields::{self, spec_field};
use crate::msg::{MessageFull, MessageHeader, MessagePart};
use crate::value::{SpecValue, Value, empty_map, spec_set, spec_get};
pub use super::data::start::user::User;
pub use super::data::start::opponent::Opponent;
use super::data::start::opponent::law_opponent_roundtrip;
use super::data::start::user::law_start_user_roundtrip;

verus! {

/// The start of a combat: the two sides, the kind of combat and who plays first.
#[derive(Debug, Clone)]
pub struct Start {
    pub header: MessageHeader,
    pub id: u32,
    pub user: User,
    pub opponent: Opponent,
    pub combat_type: String,
    pub env: String,
    pub first: bool,
}

/// The model of a [`Start`].
pub struct StartView {
    pub header: Option<Seq<char>>,
    pub id: u32,
    pub user: <User as DeepView>::V,
    pub opponent: <Opponent as DeepView>::V,
    pub combat_type: Seq<char>,
    pub env: Seq<char>,
    pub first: bool,
}

impl DeepView for Start {
    type V = StartView;

    open spec fn deep_view(&self) -> StartView {
        StartView {
            header: self.header.deep_view(),
            id: self.id,
            user: self.user.deep_view(),
            opponent: self.opponent.deep_view(),
            combat_type: self.combat_type@,
            env: self.env@,
            first: self.first,
        }
    }
}

impl MessagePart for Start {
    open spec fn spec_decode(data: SpecValue) -> Result<StartView, ErrorView> {
        match MessageHeader::spec_decode(data) {
            Err(e) => Err(e),
            Ok(header) => match spec_field::<u32>(data, "id"@) {
                Err(e) => Err(e),
                Ok(id) => match spec_field::<User>(data, "user"@) {
                    Err(e) => Err(e),
                    Ok(user) => match spec_field::<Opponent>(data, "opponent"@) {
                        Err(e) => Err(e),
                        Ok(opponent) => match spec_field::<String>(data, "combat_type"@) {
                            Err(e) => Err(e),
                            Ok(combat_type) => match spec_field::<String>(data, "env"@) {
                                Err(e) => Err(e),
                                Ok(env) => match spec_field::<bool>(data, "first"@) {
                                    Err(e) => Err(e),
                                    Ok(first) => Ok(StartView { header, id, user, opponent, combat_type, env, first }),
                                },
                            },
                        },
                    },
                },
            },
        }
    }

    /// The combat id is written under `id` after the header, so it replaces the header's id.
    open spec fn spec_encode(m: StartView, data: SpecValue) -> SpecValue {
        let d = data;
        let d = spec_set(d, "type"@, SpecValue::String("combat:start"@));
        let d = MessageHeader::spec_encode(m.header, d);
        let d = spec_set(d, "id"@, u32::spec_into_value(m.id));
        let d = spec_set(d, "user"@, User::spec_encode(m.user, empty_map()));
        let d = spec_set(d, "opponent"@, Opponent::spec_encode(m.opponent, empty_map()));
        let d = spec_set(d, "combat_type"@, String::spec_into_value(m.combat_type));
        let d = spec_set(d, "env"@, String::spec_into_value(m.env));
        let d = spec_set(d, "first"@, bool::spec_into_value(m.first));
        d
    }

    fn decode(data: &Value) -> (r: Result<Start, Error>) {
        let header = MessageHeader::decode(data)?;
        let id = fields::get::<u32>(data, "id")?;
        let user = fields::get::<User>(data, "user")?;
        let opponent = fields::get::<Opponent>(data, "opponent")?;
        let combat_type = fields::get::<String>(data, "combat_type")?;
        let env = fields::get::<String>(data, "env")?;
        let first = fields::get::<bool>(data, "first")?;
        Ok(Start { header, id, user, opponent, combat_type, env, first })
    }

    fn encode(&self, data: &mut Value) {
        data.set("type", str_value("combat:start"));
        self.header.encode(data);
        data.set("id", self.id.into_value());
        data.set("user", self.user.value());
        data.set("opponent", self.opponent.value());
        data.set("combat_type", self.combat_type.clone().into_value());
        data.set("env", self.env.clone().into_value());
        data.set("first", self.first.into_value());
    }
}

impl MessageFull for Start {
    open spec fn spec_header(&self) -> MessageHeader {
        self.header
    }

    open spec fn spec_with_header(&self, h: MessageHeader) -> Start {
        Start { header: h, ..*self }
    }

    fn header(&self) -> (r: &MessageHeader) {
        &self.header
    }

    fn header_mut(&mut self) -> (r: &mut MessageHeader) {
        &mut self.header
    }
}

/// A start notice does not survive its own encoding: the combat id, written
/// after the header under the same key, makes the header unreadable. Every
/// other field reads back as it was written, and `id` reads back as the
/// combat id.
pub proof fn law_start_encoding(m: StartView)
    ensures
        ({
            let d = Start::spec_encode(m, empty_map());
            &&& Start::spec_decode(d) == Err::<StartView, ErrorView>(
                ErrorView::InvalidField("id"@, "Invalid field type"@),
            )
            &&& spec_field::<u32>(d, "id"@) == Ok::<u32, ErrorView>(m.id)
            &&& spec_field::<User>(d, "user"@) == Ok::<_, ErrorView>(m.user)
            &&& spec_field::<String>(d, "combat_type"@) == Ok::<Seq<char>, ErrorView>(m.combat_type)
            &&& spec_field::<String>(d, "env"@) == Ok::<Seq<char>, ErrorView>(m.env)
            &&& spec_field::<bool>(d, "first"@) == Ok::<bool, ErrorView>(m.first)
            &&& (m.opponent.user is Some ==> spec_field::<Opponent>(d, "opponent"@) == Ok::<_, ErrorView>(m.opponent))
        }),
{
    broadcast use crate::value::law_get_after_set, crate::value::lemma_set_is_map;

    reveal_strlit("type");
    reveal_strlit("id");
    reveal_strlit("user");
    reveal_strlit("opponent");
    reveal_strlit("combat_type");
    reveal_strlit("env");
    reveal_strlit("first");
    assert("type"@.len() != "id"@.len());
    assert("type"@[0] == 't' && "user"@[0] == 'u');
    assert("type"@.len() != "opponent"@.len());
    assert("type"@.len() != "combat_type"@.len());
    assert("type"@.len() != "env"@.len());
    assert("type"@.len() != "first"@.len());
    assert("id"@.len() != "user"@.len());
    assert("id"@.len() != "opponent"@.len());
    assert("id"@.len() != "combat_type"@.len());
    assert("id"@.len() != "env"@.len());
    assert("id"@.len() != "first"@.len());
    assert("user"@.len() != "opponent"@.len());
    assert("user"@.len() != "combat_type"@.len());
    assert("user"@.len() != "env"@.len());
    assert("user"@.len() != "first"@.len());
    assert("opponent"@.len() != "combat_type"@.len());
    assert("opponent"@.len() != "env"@.len());
    assert("opponent"@.len() != "first"@.len());
    assert("combat_type"@.len() != "env"@.len());
    assert("combat_type"@.len() != "first"@.len());
    assert("env"@.len() != "first"@.len());
    law_start_user_roundtrip(m.user);
    if m.opponent.user is Some {
        law_opponent_roundtrip(m.opponent);
    }
    let d = Start::spec_encode(m, empty_map());
    assert(spec_get(d, "id"@) == Some(u32::spec_into_value(m.id)));
    assert(spec_field::<u32>(d, "id"@) == Ok::<u32, ErrorView>(m.id));
    assert(spec_field::<User>(d, "user"@) == Ok::<_, ErrorView>(m.user));
    assert(spec_field::<String>(d, "combat_type"@) == Ok::<Seq<char>, ErrorView>(m.combat_type));
    assert(MessageHeader::spec_decode(d) == Err::<Option<Seq<char>>, ErrorView>(ErrorView::InvalidField("id"@, "Invalid field type"@)));
}

/// Decoding reads each field from the key of its name: whatever map it
/// succeeds on, each field of the result holds what its key reads as.
pub proof fn law_start_reads_fields(data: SpecValue)
    ensures
        Start::spec_decode(data) matches Ok(m) ==> {
            &&& (MessageHeader::spec_decode(data) matches Ok(v) && v == m.header)
            &&& (spec_field::<u32>(data, "id"@) matches Ok(v) && v == m.id)
            &&& (spec_field::<User>(data, "user"@) matches Ok(v) && v == m.user)
            &&& (spec_field::<Opponent>(data, "opponent"@) matches Ok(v) && v == m.opponent)
            &&& (spec_field::<String>(data, "combat_type"@) matches Ok(v) && v == m.combat_type)
            &&& (spec_field::<String>(data, "env"@) matches Ok(v) && v == m.env)
            &&& (spec_field::<bool>(data, "first"@) matches Ok(v) && v == m.first)
        },
{
}

/// Encoding writes each field under the key of its name, into any map.
pub proof fn law_start_writes_fields(m: StartView, data: SpecValue)
    requires
        data is Mapping,
    ensures
        spec_get(Start::spec_encode(m, data), "type"@) == Some(SpecValue::String("combat:start"@)),
        spec_get(Start::spec_encode(m, data), "id"@) == Some(u32::spec_into_value(m.id)),
        spec_get(Start::spec_encode(m, data), "user"@) == Some(User::spec_encode(m.user, empty_map())),
        spec_get(Start::spec_encode(m, data), "opponent"@) == Some(Opponent::spec_encode(m.opponent, empty_map())),
        spec_get(Start::spec_encode(m, data), "combat_type"@) == Some(String::spec_into_value(m.combat_type)),
        spec_get(Start::spec_encode(m, data), "env"@) == Some(String::spec_into_value(m.env)),
        spec_get(Start::spec_encode(m, data), "first"@) == Some(bool::spec_into_value(m.first)),
{
    broadcast use crate::value::law_get_after_set, crate::value::lemma_set_is_map;

    reveal_strlit("type");
    reveal_strlit("id");
    reveal_strlit("user");
    reveal_strlit("opponent");
    reveal_strlit("combat_type");
    reveal_strlit("env");
    reveal_strlit("first");
    assert("type"@.len() != "id"@.len());
    assert("type"@[0] == 't' && "user"@[0] == 'u');
    assert("type"@.len() != "opponent"@.len());
    assert("type"@.len() != "combat_type"@.len());
    assert("type"@.len() != "env"@.len());
    assert("type"@.len() != "first"@.len());
    assert("id"@.len() != "user"@.len());
    assert("id"@.len() != "opponent"@.len());
    assert("id"@.len() != "combat_type"@.len());
    assert("id"@.len() != "env"@.len());
    assert("id"@.len() != "first"@.len());
    assert("user"@.len() != "opponent"@.len());
    assert("user"@.len() != "combat_type"@.len());
    assert("user"@.len() != "env"@.len());
    assert("user"@.len() != "first"@.len());
    assert("opponent"@.len() != "combat_type"@.len());
    assert("opponent"@.len() != "env"@.len());
    assert("opponent"@.len() != "first"@.len());
    assert("combat_type"@.len() != "env"@.len());
    assert("combat_type"@.len() != "first"@.len());
    assert("env"@.len() != "first"@.len());
}

} // verus!
