//! Offering a combat.
use vstd::prelude::*;
use vstd::string::StringExecFns;
use crate::convert::{IntoValue, Timestamp, str_value};
use crate::error::{Error, ErrorView};
use crate::fields::{self, spec_field};
use crate::msg::{MessageFull, MessageHeader, MessagePart};
use crate::value::{SpecValue, Value, empty_map, spec_get, spec_set};
use super::data::user::{User, UserView, law_user_roundtrip};

verus! {

/// An offer of a combat, telling where it comes from and how many monsters
/// the receiver may bring.
#[derive(Debug, Clone)]
pub struct Available {
    pub header: MessageHeader,
    pub origin: Origin,
    pub monsters_max_count: u32,
}

/// Where an offered combat comes from.
#[derive(Debug, Clone)]
pub enum Origin {
    WildMonster { monster_id: u32 },
    Duel { user: User },
    Portal { user: User, timeout: Timestamp },
}

/// The model of an [`Origin`].
pub enum OriginView {
    WildMonster { monster_id: u32 },
    Duel { user: UserView },
    Portal { user: UserView, timeout: Timestamp },
}

/// The model of an [`Available`].
pub struct AvailableView {
    pub header: Option<Seq<char>>,
    pub origin: OriginView,
    pub monsters_max_count: u32,
}

impl DeepView for Origin {
    type V = OriginView;

    open spec fn deep_view(&self) -> OriginView {
        match self {
            Origin::WildMonster { monster_id } => OriginView::WildMonster { monster_id: *monster_id },
            Origin::Duel { user } => OriginView::Duel { user: user.deep_view() },
            Origin::Portal { user, timeout } => OriginView::Portal { user: user.deep_view(), timeout: *timeout },
        }
    }
}

impl DeepView for Available {
    type V = AvailableView;

    open spec fn deep_view(&self) -> AvailableView {
        AvailableView {
            header: self.header.deep_view(),
            origin: self.origin.deep_view(),
            monsters_max_count: self.monsters_max_count,
        }
    }
}

/// The message for an unknown origin kind `origin`.
pub open spec fn bad_origin_text(origin: Seq<char>) -> Seq<char> {
    "Bad origin type: `"@ + origin + "`"@
}

impl MessagePart for Origin {
    /// The `origin` field names the kind, and the kind says which fields
    /// follow.
    open spec fn spec_decode(data: SpecValue) -> Result<OriginView, ErrorView> {
        match spec_field::<String>(data, "origin"@) {
            Err(e) => Err(e),
            Ok(origin) => if origin == "wild-monster"@ {
                match spec_field::<u32>(data, "monster_id"@) {
                    Err(e) => Err(e),
                    Ok(monster_id) => Ok(OriginView::WildMonster { monster_id }),
                }
            } else if origin == "duel"@ {
                match spec_field::<User>(data, "user"@) {
                    Err(e) => Err(e),
                    Ok(user) => Ok(OriginView::Duel { user }),
                }
            } else if origin == "portal"@ {
                match spec_field::<User>(data, "user"@) {
                    Err(e) => Err(e),
                    Ok(user) => match spec_field::<Timestamp>(data, "timeout"@) {
                        Err(e) => Err(e),
                        Ok(timeout) => Ok(OriginView::Portal { user, timeout }),
                    },
                }
            } else {
                Err(ErrorView::InvalidField("origin"@, bad_origin_text(origin)))
            },
        }
    }

    /// A portal origin writes nothing.
    open spec fn spec_encode(m: OriginView, data: SpecValue) -> SpecValue {
        match m {
            OriginView::WildMonster { monster_id } => {
                let d = spec_set(data, "origin"@, SpecValue::String("wild-monster"@));
                spec_set(d, "monster_id"@, u32::spec_into_value(monster_id))
            },
            OriginView::Duel { user } => {
                let d = spec_set(data, "origin"@, SpecValue::String("duel"@));
                spec_set(d, "user"@, User::spec_encode(user, empty_map()))
            },
            OriginView::Portal { .. } => data,
        }
    }

    fn decode(data: &Value) -> (r: Result<Origin, Error>) {
        let origin = fields::get::<String>(data, "origin")?;
        if origin == String::from_str("wild-monster") {
            let monster_id = fields::get::<u32>(data, "monster_id")?;
            Ok(Origin::WildMonster { monster_id })
        } else if origin == String::from_str("duel") {
            let user = fields::get::<User>(data, "user")?;
            Ok(Origin::Duel { user })
        } else if origin == String::from_str("portal") {
            let user = fields::get::<User>(data, "user")?;
            let timeout = fields::get::<Timestamp>(data, "timeout")?;
            Ok(Origin::Portal { user, timeout })
        } else {
            let msg = String::from_str("Bad origin type: `").concat(origin.as_str()).concat("`");
            Err(Error::InvalidField("origin", msg))
        }
    }

    fn encode(&self, data: &mut Value) {
        match self {
            Origin::WildMonster { monster_id } => {
                data.set("origin", str_value("wild-monster"));
                data.set("monster_id", monster_id.into_value());
            },
            Origin::Duel { user } => {
                data.set("origin", str_value("duel"));
                data.set("user", user.value());
            },
            _ => {},
        }
    }
}

impl MessagePart for Available {
    open spec fn spec_decode(data: SpecValue) -> Result<AvailableView, ErrorView> {
        match MessageHeader::spec_decode(data) {
            Err(e) => Err(e),
            Ok(header) => match Origin::spec_decode(data) {
                Err(e) => Err(e),
                Ok(origin) => match spec_field::<u32>(data, "monsters_max_count"@) {
                    Err(e) => Err(e),
                    Ok(monsters_max_count) => Ok(AvailableView { header, origin, monsters_max_count }),
                },
            },
        }
    }

    /// The maximal monster count is not written.
    open spec fn spec_encode(m: AvailableView, data: SpecValue) -> SpecValue {
        let d = spec_set(data, "type"@, SpecValue::String("combat:available"@));
        let d = MessageHeader::spec_encode(m.header, d);
        Origin::spec_encode(m.origin, d)
    }

    fn decode(data: &Value) -> (r: Result<Available, Error>) {
        let header = MessageHeader::decode(data)?;
        let origin = Origin::decode(data)?;
        let monsters_max_count = fields::get::<u32>(data, "monsters_max_count")?;
        Ok(Available { header, origin, monsters_max_count })
    }

    fn encode(&self, data: &mut Value) {
        data.set("type", str_value("combat:available"));
        self.header.encode(data);
        self.origin.encode(data);
    }
}

impl MessageFull for Available {
    open spec fn spec_header(&self) -> MessageHeader {
        self.header
    }

    open spec fn spec_with_header(&self, h: MessageHeader) -> Available {
        Available { header: h, ..*self }
    }

    fn header(&self) -> (r: &MessageHeader) {
        &self.header
    }

    fn header_mut(&mut self) -> (r: &mut MessageHeader) {
        &mut self.header
    }
}

/// Decoding what a wild-monster or duel origin encodes into an empty map gives
/// it back.
pub proof fn law_origin_roundtrip(m: OriginView)
    requires
        !(m is Portal),
    ensures
        Origin::spec_decode(Origin::spec_encode(m, empty_map())) == Ok::<OriginView, ErrorView>(m),
{
    broadcast use crate::value::law_get_after_set, crate::value::lemma_set_is_map;

    reveal_strlit("origin");
    reveal_strlit("monster_id");
    reveal_strlit("user");
    reveal_strlit("wild-monster");
    reveal_strlit("duel");
    reveal_strlit("portal");
    assert("origin"@.len() != "monster_id"@.len());
    assert("origin"@.len() != "user"@.len());
    assert("wild-monster"@.len() != "duel"@.len());
    assert("wild-monster"@.len() != "portal"@.len());
    assert("duel"@.len() != "portal"@.len());
    if let OriginView::Duel { user } = m {
        law_user_roundtrip(user);
    }
}

/// An offer does not survive its own encoding, since the maximal monster
/// count is not written; the header and a wild-monster or duel origin do read
/// back.
pub proof fn law_available_encoding(m: AvailableView)
    requires
        !(m.origin is Portal),
    ensures
        ({
            let d = Available::spec_encode(m, empty_map());
            &&& MessageHeader::spec_decode(d) == Ok::<Option<Seq<char>>, ErrorView>(m.header)
            &&& Origin::spec_decode(d) == Ok::<OriginView, ErrorView>(m.origin)
            &&& Available::spec_decode(d) == Err::<AvailableView, ErrorView>(
                ErrorView::MissingField("monsters_max_count"@),
            )
        }),
{
    broadcast use crate::value::law_get_after_set, crate::value::lemma_set_is_map;

    reveal_strlit("type");
    reveal_strlit("id");
    reveal_strlit("origin");
    reveal_strlit("monster_id");
    reveal_strlit("user");
    reveal_strlit("monsters_max_count");
    reveal_strlit("wild-monster");
    reveal_strlit("duel");
    reveal_strlit("portal");
    assert("type"@.len() != "id"@.len());
    assert("type"@.len() != "origin"@.len());
    assert("type"@[0] == 't' && "user"@[0] == 'u');
    assert("id"@.len() != "origin"@.len());
    assert("id"@.len() != "monster_id"@.len());
    assert("id"@.len() != "user"@.len());
    assert("origin"@.len() != "monster_id"@.len());
    assert("origin"@.len() != "user"@.len());
    assert("monsters_max_count"@.len() != "type"@.len());
    assert("monsters_max_count"@.len() != "id"@.len());
    assert("monsters_max_count"@.len() != "origin"@.len());
    assert("monsters_max_count"@.len() != "monster_id"@.len());
    assert("monsters_max_count"@.len() != "user"@.len());
    assert("wild-monster"@.len() != "duel"@.len());
    assert("wild-monster"@.len() != "portal"@.len());
    assert("duel"@.len() != "portal"@.len());
    if let OriginView::Duel { user } = m.origin {
        law_user_roundtrip(user);
    }
    let d = Available::spec_encode(m, empty_map());
    let e = match d {
        SpecValue::Mapping(e) => e,
        _ => Seq::empty(),
    };
    crate::value::lemma_find_key_found(e, "monsters_max_count"@);
}

/// Decoding an origin reads its kind from `origin`, and then the fields of
/// that kind from the keys of their names.
pub proof fn law_origin_reads_fields(data: SpecValue)
    ensures
        Origin::spec_decode(data) matches Ok(o) ==> match o {
            OriginView::WildMonster { monster_id } => {
                &&& spec_field::<String>(data, "origin"@) == Ok::<Seq<char>, ErrorView>("wild-monster"@)
                &&& spec_field::<u32>(data, "monster_id"@) == Ok::<u32, ErrorView>(monster_id)
            },
            OriginView::Duel { user } => {
                &&& spec_field::<String>(data, "origin"@) == Ok::<Seq<char>, ErrorView>("duel"@)
                &&& (spec_field::<User>(data, "user"@) matches Ok(v) && v == user)
            },
            OriginView::Portal { user, timeout } => {
                &&& spec_field::<String>(data, "origin"@) == Ok::<Seq<char>, ErrorView>("portal"@)
                &&& (spec_field::<User>(data, "user"@) matches Ok(v) && v == user)
                &&& spec_field::<Timestamp>(data, "timeout"@) == Ok::<Timestamp, ErrorView>(timeout)
            },
        },
{
}

/// Encoding a wild-monster or duel origin writes its kind under `origin` and
/// its field under the key of its name, into any map; a portal origin leaves
/// the map as it is.
pub proof fn law_origin_writes_fields(m: OriginView, data: SpecValue)
    requires
        data is Mapping,
    ensures
        m matches OriginView::WildMonster { monster_id } ==> {
            &&& spec_get(Origin::spec_encode(m, data), "origin"@) == Some(SpecValue::String("wild-monster"@))
            &&& spec_get(Origin::spec_encode(m, data), "monster_id"@) == Some(u32::spec_into_value(monster_id))
        },
        m matches OriginView::Duel { user } ==> {
            &&& spec_get(Origin::spec_encode(m, data), "origin"@) == Some(SpecValue::String("duel"@))
            &&& spec_get(Origin::spec_encode(m, data), "user"@) == Some(User::spec_encode(user, empty_map()))
        },
        m is Portal ==> Origin::spec_encode(m, data) == data,
{
    broadcast use crate::value::law_get_after_set, crate::value::lemma_set_is_map;

    reveal_strlit("origin");
    reveal_strlit("monster_id");
    reveal_strlit("user");
    assert("origin"@.len() != "monster_id"@.len());
    assert("origin"@.len() != "user"@.len());
}

/// Decoding an offer reads the header, the origin and the maximal monster
/// count from their keys.
pub proof fn law_available_reads_fields(data: SpecValue)
    ensures
        Available::spec_decode(data) matches Ok(m) ==> {
            &&& (MessageHeader::spec_decode(data) matches Ok(v) && v == m.header)
            &&& (Origin::spec_decode(data) matches Ok(v) && v == m.origin)
            &&& spec_field::<u32>(data, "monsters_max_count"@) == Ok::<u32, ErrorView>(m.monsters_max_count)
        },
{
}

/// Encoding an offer writes its tag and header, then its origin, into any map.
pub proof fn law_available_writes_fields(m: AvailableView, data: SpecValue)
    requires
        data is Mapping,
    ensures
        spec_get(Available::spec_encode(m, data), "type"@) == Some(SpecValue::String("combat:available"@)),
        spec_get(Available::spec_encode(m, data), "id"@) == Some(Option::<String>::spec_into_value(m.header)),
{
    broadcast use crate::value::law_get_after_set, crate::value::lemma_set_is_map;

    reveal_strlit("type");
    reveal_strlit("id");
    reveal_strlit("origin");
    reveal_strlit("monster_id");
    reveal_strlit("user");
    assert("type"@.len() != "id"@.len());
    assert("type"@.len() != "origin"@.len());
    assert("type"@.len() != "monster_id"@.len());
    assert("type"@[0] == 't' && "user"@[0] == 'u');
    assert("id"@.len() != "origin"@.len());
    assert("id"@.len() != "monster_id"@.len());
    assert("id"@.len() != "user"@.len());
}

} // verus!
