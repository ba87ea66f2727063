//! Credentials carried inside other messages.
use vstd::prelude::*;
use crate::convert::{IntoValue};
use crate::error::{Error, ErrorView};
use crate::fields::{self, spec_field};
use crate::msg::{MessagePart};
use crate::value::{SpecValue, Value, empty_map, spec_set, spec_get};

verus! {

/// The session token that a message carries.
#[derive(Debug, Clone)]
pub struct Authenticated {
    pub token: String,
}

/// The model of a [`Authenticated`].
pub struct AuthenticatedView {
    pub token: Seq<char>,
}

impl DeepView for Authenticated {
    type V = AuthenticatedView;

    open spec fn deep_view(&self) -> AuthenticatedView {
        AuthenticatedView {
            token: self.token@,
        }
    }
}

impl MessagePart for Authenticated {
    open spec fn spec_decode(data: SpecValue) -> Result<AuthenticatedView, ErrorView> {
        match spec_field::<String>(data, "token"@) {
            Err(e) => Err(e),
            Ok(token) => Ok(AuthenticatedView { token }),
        }
    }

    open spec fn spec_encode(m: AuthenticatedView, data: SpecValue) -> SpecValue {
        let d = data;
        let d = spec_set(d, "token"@, String::spec_into_value(m.token));
        d
    }

    fn decode(data: &Value) -> (r: Result<Authenticated, Error>) {
        let token = fields::get::<String>(data, "token")?;
        Ok(Authenticated { token })
    }

    fn encode(&self, data: &mut Value) {
        data.set("token", self.token.clone().into_value());
    }
}

/// Decoding what a credential part encodes into an empty map gives it back.
pub proof fn law_authenticated_roundtrip(m: AuthenticatedView)
    ensures
        Authenticated::spec_decode(Authenticated::spec_encode(m, empty_map())) == Ok::<AuthenticatedView, ErrorView>(m),
{
    broadcast use crate::value::law_get_after_set, crate::value::lemma_set_is_map;

    reveal_strlit("token");
}


/// The claims of a session token: the session it stands for.
#[derive(Debug, Clone, Copy, PartialEq, Eq, Structural)]
pub struct Session {
    pub session_id: u64,
}

/// Decoding reads each field from the key of its name: whatever map it
/// succeeds on, each field of the result holds what its key reads as.
pub proof fn law_authenticated_reads_fields(data: SpecValue)
    ensures
        Authenticated::spec_decode(data) matches Ok(m) ==> {
            &&& (spec_field::<String>(data, "token"@) matches Ok(v) && v == m.token)
        },
{
}

/// Encoding writes each field under the key of its name, into any map.
pub proof fn law_authenticated_writes_fields(m: AuthenticatedView, data: SpecValue)
    requires
        data is Mapping,
    ensures
        spec_get(Authenticated::spec_encode(m, data), "token"@) == Some(String::spec_into_value(m.token)),
{
    broadcast use crate::value::law_get_after_set, crate::value::lemma_set_is_map;

    reveal_strlit("token");
}

} // verus!
