//! The user side of a starting combat.
use vstd::prelude::*;
use crate::convert::{FromValue};
use crate::error::{Error, ErrorView};
use crate::msg::{MessagePart};
use crate::value::{SpecValue, Value, empty_map, spec_get};
use super::super::monster::Monster;

verus! {

/// The monster that a user starts a combat with; it is written flat into the map.
#[derive(Debug, Clone)]
pub struct User {
    pub monster: Monster,
}

/// The model of a [`User`].
pub struct UserView {
    pub monster: <Monster as DeepView>::V,
}

impl DeepView for User {
    type V = UserView;

    open spec fn deep_view(&self) -> UserView {
        UserView {
            monster: self.monster.deep_view(),
        }
    }
}

impl MessagePart for User {
    open spec fn spec_decode(data: SpecValue) -> Result<UserView, ErrorView> {
        match Monster::spec_decode(data) {
            Err(e) => Err(e),
            Ok(monster) => Ok(UserView { monster }),
        }
    }

    open spec fn spec_encode(m: UserView, data: SpecValue) -> SpecValue {
        let d = data;
        let d = Monster::spec_encode(m.monster, d);
        d
    }

    fn decode(data: &Value) -> (r: Result<User, Error>) {
        let monster = Monster::decode(data)?;
        Ok(User { monster })
    }

    fn encode(&self, data: &mut Value) {
        self.monster.encode(data);
    }
}

impl FromValue for User {
    /// What decodes as a user.
    open spec fn spec_from_value(v: SpecValue) -> Option<UserView> {
        match Self::spec_decode(v) {
            Ok(m) => Some(m),
            Err(_) => None,
        }
    }

    fn from_value(value: &Value) -> (r: Option<User>) {
        match Self::decode(value) {
            Ok(m) => Some(m),
            Err(_) => None,
        }
    }
}

/// Decoding what a user side encodes into an empty map gives it back.
pub proof fn law_start_user_roundtrip(m: UserView)
    ensures
        User::spec_decode(User::spec_encode(m, empty_map())) == Ok::<UserView, ErrorView>(m),
{
    broadcast use crate::value::law_get_after_set, crate::value::lemma_set_is_map;

    reveal_strlit("type");
    reveal_strlit("id");
    reveal_strlit("name");
    reveal_strlit("monster_id");
    reveal_strlit("user_monster_id");
    reveal_strlit("hp");
    reveal_strlit("level");
    assert("type"@.len() != "id"@.len());
    assert("type"@[0] == 't' && "name"@[0] == 'n');
    assert("type"@.len() != "monster_id"@.len());
    assert("type"@.len() != "user_monster_id"@.len());
    assert("type"@.len() != "hp"@.len());
    assert("type"@.len() != "level"@.len());
    assert("id"@.len() != "name"@.len());
    assert("id"@.len() != "monster_id"@.len());
    assert("id"@.len() != "user_monster_id"@.len());
    assert("id"@[0] == 'i' && "hp"@[0] == 'h');
    assert("id"@.len() != "level"@.len());
    assert("name"@.len() != "monster_id"@.len());
    assert("name"@.len() != "user_monster_id"@.len());
    assert("name"@.len() != "hp"@.len());
    assert("name"@.len() != "level"@.len());
    assert("monster_id"@.len() != "user_monster_id"@.len());
    assert("monster_id"@.len() != "hp"@.len());
    assert("monster_id"@.len() != "level"@.len());
    assert("user_monster_id"@.len() != "hp"@.len());
    assert("user_monster_id"@.len() != "level"@.len());
    assert("hp"@.len() != "level"@.len());
}

/// Decoding reads each field from the key of its name: whatever map it
/// succeeds on, each field of the result holds what its key reads as.
pub proof fn law_start_user_reads_fields(data: SpecValue)
    ensures
        User::spec_decode(data) matches Ok(m) ==> {
            &&& (Monster::spec_decode(data) matches Ok(v) && v == m.monster)
        },
{
}

} // verus!
