//! Authentication with a session token.
use vstd::prelude::*;
use crate::convert::{IntoValue, str_value};
use crate::error::{Error, ErrorView};
use crate::fields::{self, spec_field};
use crate::msg::{MessageFull, MessageHeader, MessagePart};
use crate::value::{SpecValue, Value, empty_map, spec_set, spec_get};

verus! {

/// A request to authenticate with a session token.
#[derive(Debug, Clone)]
pub struct Authenticate {
    pub header: MessageHeader,
    pub token: String,
}

/// The model of a [`Authenticate`].
pub struct AuthenticateView {
    pub header: Option<Seq<char>>,
    pub token: Seq<char>,
}

impl DeepView for Authenticate {
    type V = AuthenticateView;

    open spec fn deep_view(&self) -> AuthenticateView {
        AuthenticateView {
            header: self.header.deep_view(),
            token: self.token@,
        }
    }
}

impl MessagePart for Authenticate {
    open spec fn spec_decode(data: SpecValue) -> Result<AuthenticateView, ErrorView> {
        match MessageHeader::spec_decode(data) {
            Err(e) => Err(e),
            Ok(header) => match spec_field::<String>(data, "token"@) {
                Err(e) => Err(e),
                Ok(token) => Ok(AuthenticateView { header, token }),
            },
        }
    }

    open spec fn spec_encode(m: AuthenticateView, data: SpecValue) -> SpecValue {
        let d = data;
        let d = spec_set(d, "type"@, SpecValue::String("authenticate"@));
        let d = MessageHeader::spec_encode(m.header, d);
        let d = spec_set(d, "token"@, String::spec_into_value(m.token));
        d
    }

    fn decode(data: &Value) -> (r: Result<Authenticate, Error>) {
        let header = MessageHeader::decode(data)?;
        let token = fields::get::<String>(data, "token")?;
        Ok(Authenticate { header, token })
    }

    fn encode(&self, data: &mut Value) {
        data.set("type", str_value("authenticate"));
        self.header.encode(data);
        data.set("token", self.token.clone().into_value());
    }
}

impl MessageFull for Authenticate {
    open spec fn spec_header(&self) -> MessageHeader {
        self.header
    }

    open spec fn spec_with_header(&self, h: MessageHeader) -> Authenticate {
        Authenticate { header: h, ..*self }
    }

    fn header(&self) -> (r: &MessageHeader) {
        &self.header
    }

    fn header_mut(&mut self) -> (r: &mut MessageHeader) {
        &mut self.header
    }
}

/// Decoding what a authentication request encodes into an empty map gives it back.
pub proof fn law_authenticate_roundtrip(m: AuthenticateView)
    ensures
        Authenticate::spec_decode(Authenticate::spec_encode(m, empty_map())) == Ok::<AuthenticateView, ErrorView>(m),
        spec_get(Authenticate::spec_encode(m, empty_map()), "type"@) == Some(SpecValue::String("authenticate"@)),
{
    broadcast use crate::value::law_get_after_set, crate::value::lemma_set_is_map;

    reveal_strlit("type");
    reveal_strlit("id");
    reveal_strlit("token");
    assert("type"@.len() != "id"@.len());
    assert("type"@.len() != "token"@.len());
    assert("id"@.len() != "token"@.len());
}


/// The claims of an authentication token: the session it opens.
#[derive(Debug, Clone, Copy, PartialEq, Eq, Structural)]
pub struct SessionData {
    pub session_id: u64,
}

/// Decoding reads each field from the key of its name: whatever map it
/// succeeds on, each field of the result holds what its key reads as.
pub proof fn law_authenticate_reads_fields(data: SpecValue)
    ensures
        Authenticate::spec_decode(data) matches Ok(m) ==> {
            &&& (MessageHeader::spec_decode(data) matches Ok(v) && v == m.header)
            &&& (spec_field::<String>(data, "token"@) matches Ok(v) && v == m.token)
        },
{
}

/// Encoding writes each field under the key of its name, into any map.
pub proof fn law_authenticate_writes_fields(m: AuthenticateView, data: SpecValue)
    requires
        data is Mapping,
    ensures
        spec_get(Authenticate::spec_encode(m, data), "type"@) == Some(SpecValue::String("authenticate"@)),
        spec_get(Authenticate::spec_encode(m, data), "id"@) == Some(Option::<String>::spec_into_value(m.header)),
        spec_get(Authenticate::spec_encode(m, data), "token"@) == Some(String::spec_into_value(m.token)),
{
    broadcast use crate::value::law_get_after_set, crate::value::lemma_set_is_map;

    reveal_strlit("type");
    reveal_strlit("id");
    reveal_strlit("token");
    assert("type"@.len() != "id"@.len());
    assert("type"@.len() != "token"@.len());
    assert("id"@.len() != "token"@.len());
}

} // verus!
