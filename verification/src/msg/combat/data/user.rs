//! A user as combat messages describe it.
use vstd::prelude::*;
use crate::convert::{FromValue, IntoValue};
use crate::error::{Error, ErrorView};
use crate::fields::{self, spec_field};
use crate::msg::{MessagePart};
use crate::value::{SpecValue, Value, empty_map, spec_set, spec_get};

verus! {

/// A user taking part in a combat.
#[derive(Debug, Clone)]
pub struct User {
    pub id: u32,
    pub pseudo: String,
}

/// The model of a [`User`].
pub struct UserView {
    pub id: u32,
    pub pseudo: Seq<char>,
}

impl DeepView for User {
    type V = UserView;

    open spec fn deep_view(&self) -> UserView {
        UserView {
            id: self.id,
            pseudo: self.pseudo@,
        }
    }
}

impl MessagePart for User {
    open spec fn spec_decode(data: SpecValue) -> Result<UserView, ErrorView> {
        match spec_field::<u32>(data, "id"@) {
            Err(e) => Err(e),
            Ok(id) => match spec_field::<String>(data, "pseudo"@) {
                Err(e) => Err(e),
                Ok(pseudo) => Ok(UserView { id, pseudo }),
            },
        }
    }

    open spec fn spec_encode(m: UserView, data: SpecValue) -> SpecValue {
        let d = data;
        let d = spec_set(d, "id"@, u32::spec_into_value(m.id));
        let d = spec_set(d, "pseudo"@, String::spec_into_value(m.pseudo));
        d
    }

    fn decode(data: &Value) -> (r: Result<User, Error>) {
        let id = fields::get::<u32>(data, "id")?;
        let pseudo = fields::get::<String>(data, "pseudo")?;
        Ok(User { id, pseudo })
    }

    fn encode(&self, data: &mut Value) {
        data.set("id", self.id.into_value());
        data.set("pseudo", self.pseudo.clone().into_value());
    }
}

impl FromValue for User {
    /// What decodes as a user.
    open spec fn spec_from_value(v: SpecValue) -> Option<UserView> {
        match Self::spec_decode(v) {
            Ok(m) => Some(m),
            Err(_) => None,
        }
    }

    fn from_value(value: &Value) -> (r: Option<User>) {
        match Self::decode(value) {
            Ok(m) => Some(m),
            Err(_) => None,
        }
    }
}

/// Decoding what a user encodes into an empty map gives it back.
pub proof fn law_user_roundtrip(m: UserView)
    ensures
        User::spec_decode(User::spec_encode(m, empty_map())) == Ok::<UserView, ErrorView>(m),
{
    broadcast use crate::value::law_get_after_set, crate::value::lemma_set_is_map;

    reveal_strlit("id");
    reveal_strlit("pseudo");
    assert("id"@.len() != "pseudo"@.len());
}

/// Decoding reads each field from the key of its name: whatever map it
/// succeeds on, each field of the result holds what its key reads as.
pub proof fn law_user_reads_fields(data: SpecValue)
    ensures
        User::spec_decode(data) matches Ok(m) ==> {
            &&& (spec_field::<u32>(data, "id"@) matches Ok(v) && v == m.id)
            &&& (spec_field::<String>(data, "pseudo"@) matches Ok(v) && v == m.pseudo)
        },
{
}

/// Encoding writes each field under the key of its name, into any map.
pub proof fn law_user_writes_fields(m: UserView, data: SpecValue)
    requires
        data is Mapping,
    ensures
        spec_get(User::spec_encode(m, data), "id"@) == Some(u32::spec_into_value(m.id)),
        spec_get(User::spec_encode(m, data), "pseudo"@) == Some(String::spec_into_value(m.pseudo)),
{
    broadcast use crate::value::law_get_after_set, crate::value::lemma_set_is_map;

    reveal_strlit("id");
    reveal_strlit("pseudo");
    assert("id"@.len() != "pseudo"@.len());
}

} // verus!
