//! Asking another user for a duel.
use vstd::prelude::*;
use crate::convert::{IntoValue, str_value};
use crate::error::{Error, ErrorView};
use crate::fields::{self, spec_field};
use crate::msg::{MessageFull, MessageHeader, MessagePart};
use crate::value::{SpecValue, Value, empty_map, spec_set, spec_get};

verus! {

/// A request for a duel against the user with the pseudo `opponent`.
#[derive(Debug, Clone)]
pub struct Ask {
    pub header: MessageHeader,
    pub opponent: String,
}

/// The model of a [`Ask`].
pub struct AskView {
    pub header: Option<Seq<char>>,
    pub opponent: Seq<char>,
}

impl DeepView for Ask {
    type V = AskView;

    open spec fn deep_view(&self) -> AskView {
        AskView {
            header: self.header.deep_view(),
            opponent: self.opponent@,
        }
    }
}

impl MessagePart for Ask {
    open spec fn spec_decode(data: SpecValue) -> Result<AskView, ErrorView> {
        match MessageHeader::spec_decode(data) {
            Err(e) => Err(e),
            Ok(header) => match spec_field::<String>(data, "opponent"@) {
                Err(e) => Err(e),
                Ok(opponent) => Ok(AskView { header, opponent }),
            },
        }
    }

    open spec fn spec_encode(m: AskView, data: SpecValue) -> SpecValue {
        let d = data;
        let d = spec_set(d, "type"@, SpecValue::String("combat:ask"@));
        let d = MessageHeader::spec_encode(m.header, d);
        let d = spec_set(d, "opponent"@, String::spec_into_value(m.opponent));
        d
    }

    fn decode(data: &Value) -> (r: Result<Ask, Error>) {
        let header = MessageHeader::decode(data)?;
        let opponent = fields::get::<String>(data, "opponent")?;
        Ok(Ask { header, opponent })
    }

    fn encode(&self, data: &mut Value) {
        data.set("type", str_value("combat:ask"));
        self.header.encode(data);
        data.set("opponent", self.opponent.clone().into_value());
    }
}

impl MessageFull for Ask {
    open spec fn spec_header(&self) -> MessageHeader {
        self.header
    }

    open spec fn spec_with_header(&self, h: MessageHeader) -> Ask {
        Ask { header: h, ..*self }
    }

    fn header(&self) -> (r: &MessageHeader) {
        &self.header
    }

    fn header_mut(&mut self) -> (r: &mut MessageHeader) {
        &mut self.header
    }
}

/// Decoding what a duel request encodes into an empty map gives it back.
pub proof fn law_ask_roundtrip(m: AskView)
    ensures
        Ask::spec_decode(Ask::spec_encode(m, empty_map())) == Ok::<AskView, ErrorView>(m),
        spec_get(Ask::spec_encode(m, empty_map()), "type"@) == Some(SpecValue::String("combat:ask"@)),
{
    broadcast use crate::value::law_get_after_set, crate::value::lemma_set_is_map;

    reveal_strlit("type");
    reveal_strlit("id");
    reveal_strlit("opponent");
    assert("type"@.len() != "id"@.len());
    assert("type"@.len() != "opponent"@.len());
    assert("id"@.len() != "opponent"@.len());
}

/// Decoding reads each field from the key of its name: whatever map it
/// succeeds on, each field of the result holds what its key reads as.
pub proof fn law_ask_reads_fields(data: SpecValue)
    ensures
        Ask::spec_decode(data) matches Ok(m) ==> {
            &&& (MessageHeader::spec_decode(data) matches Ok(v) && v == m.header)
            &&& (spec_field::<String>(data, "opponent"@) matches Ok(v) && v == m.opponent)
        },
{
}

/// Encoding writes each field under the key of its name, into any map.
pub proof fn law_ask_writes_fields(m: AskView, data: SpecValue)
    requires
        data is Mapping,
    ensures
        spec_get(Ask::spec_encode(m, data), "type"@) == Some(SpecValue::String("combat:ask"@)),
        spec_get(Ask::spec_encode(m, data), "id"@) == Some(Option::<String>::spec_into_value(m.header)),
        spec_get(Ask::spec_encode(m, data), "opponent"@) == Some(String::spec_into_value(m.opponent)),
{
    broadcast use crate::value::law_get_after_set, crate::value::lemma_set_is_map;

    reveal_strlit("type");
    reveal_strlit("id");
    reveal_strlit("opponent");
    assert("type"@.len() != "id"@.len());
    assert("type"@.len() != "opponent"@.len());
    assert("id"@.len() != "opponent"@.len());
}

} // verus!
