//! The opposing side of a starting combat.
use vstd::prelude::*;
use crate::convert::{FromValue, IntoValue};
use crate::error::{Error, ErrorView};
use crate::fields::{self, spec_field};
use crate::msg::MessagePart;
use crate::msg::combat::data::monster::{Monster, MonsterView, law_monster_roundtrip};
use crate::msg::combat::data::user::{User, UserView, law_user_roundtrip};
use crate::value::{SpecValue, Value, empty_map, spec_set, spec_get};

verus! {

/// The opposing side of a combat: its monster, how many monsters it has, and
/// the user behind it (none for a wild monster).
#[derive(Debug, Clone)]
pub struct Opponent {
    pub monster: Monster,
    pub monsters_count: u8,
    pub user: Option<User>,
}

/// The model of an [`Opponent`].
pub struct OpponentView {
    pub monster: MonsterView,
    pub monsters_count: u8,
    pub user: Option<UserView>,
}

impl DeepView for Opponent {
    type V = OpponentView;

    open spec fn deep_view(&self) -> OpponentView {
        OpponentView {
            monster: self.monster.deep_view(),
            monsters_count: self.monsters_count,
            user: self.user.deep_view(),
        }
    }
}

impl MessagePart for Opponent {
    /// The `user` field must be present; nil reads as no user.
    open spec fn spec_decode(data: SpecValue) -> Result<OpponentView, ErrorView> {
        match spec_field::<Monster>(data, "monster"@) {
            Err(e) => Err(e),
            Ok(monster) => match spec_field::<u8>(data, "monsters_count"@) {
                Err(e) => Err(e),
                Ok(monsters_count) => match spec_field::<Option<User>>(data, "user"@) {
                    Err(e) => Err(e),
                    Ok(user) => Ok(OpponentView { monster, monsters_count, user }),
                },
            },
        }
    }

    /// The user is written only when there is one.
    open spec fn spec_encode(m: OpponentView, data: SpecValue) -> SpecValue {
        let d = spec_set(data, "monster"@, Monster::spec_encode(m.monster, empty_map()));
        let d = spec_set(d, "monsters_count"@, u8::spec_into_value(m.monsters_count));
        match m.user {
            Some(user) => spec_set(d, "user"@, User::spec_encode(user, empty_map())),
            None => d,
        }
    }

    fn decode(data: &Value) -> (r: Result<Opponent, Error>) {
        let monster = fields::get::<Monster>(data, "monster")?;
        let monsters_count = fields::get::<u8>(data, "monsters_count")?;
        let user = fields::get::<Option<User>>(data, "user")?;
        Ok(Opponent { monster, monsters_count, user })
    }

    fn encode(&self, data: &mut Value) {
        data.set("monster", self.monster.value());
        data.set("monsters_count", self.monsters_count.into_value());
        if let Some(user) = &self.user {
            data.set("user", user.value());
        }
    }
}

impl FromValue for Opponent {
    /// What decodes as an opponent.
    open spec fn spec_from_value(v: SpecValue) -> Option<OpponentView> {
        match Self::spec_decode(v) {
            Ok(m) => Some(m),
            Err(_) => None,
        }
    }

    fn from_value(value: &Value) -> (r: Option<Opponent>) {
        match Self::decode(value) {
            Ok(m) => Some(m),
            Err(_) => None,
        }
    }
}

/// Decoding what an opponent with a user encodes into an empty map gives it
/// back.
pub proof fn law_opponent_roundtrip(m: OpponentView)
    requires
        m.user is Some,
    ensures
        Opponent::spec_decode(Opponent::spec_encode(m, empty_map())) == Ok::<OpponentView, ErrorView>(m),
{
    broadcast use crate::value::law_get_after_set, crate::value::lemma_set_is_map;

    reveal_strlit("monster");
    reveal_strlit("monsters_count");
    reveal_strlit("user");
    assert("monster"@.len() != "monsters_count"@.len());
    assert("monster"@.len() != "user"@.len());
    assert("monsters_count"@.len() != "user"@.len());
    law_monster_roundtrip(m.monster);
    law_user_roundtrip(m.user->Some_0);
}

/// An opponent without a user does not survive its own encoding: no `user`
/// field is written, and decoding asks for one.
pub proof fn law_opponent_without_user(m: OpponentView)
    requires
        m.user is None,
    ensures
        Opponent::spec_decode(Opponent::spec_encode(m, empty_map())) == Err::<OpponentView, ErrorView>(
            ErrorView::MissingField("user"@),
        ),
{
    broadcast use crate::value::law_get_after_set, crate::value::lemma_set_is_map;

    reveal_strlit("monster");
    reveal_strlit("monsters_count");
    reveal_strlit("user");
    assert("monster"@.len() != "monsters_count"@.len());
    assert("monster"@.len() != "user"@.len());
    assert("monsters_count"@.len() != "user"@.len());
    law_monster_roundtrip(m.monster);
    crate::value::lemma_find_key_found(Seq::empty(), "user"@);
}

/// Decoding reads each field from the key of its name: whatever map it
/// succeeds on, each field of the result holds what its key reads as.
pub proof fn law_opponent_reads_fields(data: SpecValue)
    ensures
        Opponent::spec_decode(data) matches Ok(m) ==> {
            &&& (spec_field::<Monster>(data, "monster"@) matches Ok(v) && v == m.monster)
            &&& (spec_field::<u8>(data, "monsters_count"@) matches Ok(v) && v == m.monsters_count)
            &&& (spec_field::<Option<User>>(data, "user"@) matches Ok(v) && v == m.user)
        },
{
}

/// Encoding an opponent writes its monster, its monster count and, when it
/// has one, its user under the keys of their names, into any map.
pub proof fn law_opponent_writes_fields(m: OpponentView, data: SpecValue)
    requires
        data is Mapping,
    ensures
        spec_get(Opponent::spec_encode(m, data), "monster"@) == Some(Monster::spec_encode(m.monster, empty_map())),
        spec_get(Opponent::spec_encode(m, data), "monsters_count"@) == Some(u8::spec_into_value(m.monsters_count)),
        spec_get(Opponent::spec_encode(m, data), "user"@) == match m.user {
            Some(u) => Some(User::spec_encode(u, empty_map())),
            None => spec_get(data, "user"@),
        },
{
    broadcast use crate::value::law_get_after_set, crate::value::lemma_set_is_map;

    reveal_strlit("monster");
    reveal_strlit("monsters_count");
    reveal_strlit("user");
    assert("monster"@.len() != "monsters_count"@.len());
    assert("monster"@.len() != "user"@.len());
    assert("monsters_count"@.len() != "user"@.len());
}

} // verus!
