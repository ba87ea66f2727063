//! Fleeing a combat.
use vstd::prelude::*;
use crate::convert::{IntoValue, str_value};
use crate::error::{Error, ErrorView};
use crate::fields::{self, spec_field};
use crate::msg::{MessageFull, MessageHeader, MessagePart};
use crate::value::{SpecValue, Value, empty_map, spec_set, spec_get};

verus! {

/// A request to flee a combat.
#[derive(Debug, Clone)]
pub struct Flee {
    pub header: MessageHeader,
    pub combat: u32,
}

/// The model of a [`Flee`].
pub struct FleeView {
    pub header: Option<Seq<char>>,
    pub combat: u32,
}

impl DeepView for Flee {
    type V = FleeView;

    open spec fn deep_view(&self) -> FleeView {
        FleeView {
            header: self.header.deep_view(),
            combat: self.combat,
        }
    }
}

impl MessagePart for Flee {
    open spec fn spec_decode(data: SpecValue) -> Result<FleeView, ErrorView> {
        match MessageHeader::spec_decode(data) {
            Err(e) => Err(e),
            Ok(header) => match spec_field::<u32>(data, "combat"@) {
                Err(e) => Err(e),
                Ok(combat) => Ok(FleeView { header, combat }),
            },
        }
    }

    open spec fn spec_encode(m: FleeView, data: SpecValue) -> SpecValue {
        let d = data;
        let d = spec_set(d, "type"@, SpecValue::String("combat:flee"@));
        let d = MessageHeader::spec_encode(m.header, d);
        let d = spec_set(d, "combat"@, u32::spec_into_value(m.combat));
        d
    }

    fn decode(data: &Value) -> (r: Result<Flee, Error>) {
        let header = MessageHeader::decode(data)?;
        let combat = fields::get::<u32>(data, "combat")?;
        Ok(Flee { header, combat })
    }

    fn encode(&self, data: &mut Value) {
        data.set("type", str_value("combat:flee"));
        self.header.encode(data);
        data.set("combat", self.combat.into_value());
    }
}

impl MessageFull for Flee {
    open spec fn spec_header(&self) -> MessageHeader {
        self.header
    }

    open spec fn spec_with_header(&self, h: MessageHeader) -> Flee {
        Flee { header: h, ..*self }
    }

    fn header(&self) -> (r: &MessageHeader) {
        &self.header
    }

    fn header_mut(&mut self) -> (r: &mut MessageHeader) {
        &mut self.header
    }
}

/// Decoding what a flee request encodes into an empty map gives it back.
pub proof fn law_flee_roundtrip(m: FleeView)
    ensures
        Flee::spec_decode(Flee::spec_encode(m, empty_map())) == Ok::<FleeView, ErrorView>(m),
        spec_get(Flee::spec_encode(m, empty_map()), "type"@) == Some(SpecValue::String("combat:flee"@)),
{
    broadcast use crate::value::law_get_after_set, crate::value::lemma_set_is_map;

    reveal_strlit("type");
    reveal_strlit("id");
    reveal_strlit("combat");
    assert("type"@.len() != "id"@.len());
    assert("type"@.len() != "combat"@.len());
    assert("id"@.len() != "combat"@.len());
}

/// Decoding reads each field from the key of its name: whatever map it
/// succeeds on, each field of the result holds what its key reads as.
pub proof fn law_flee_reads_fields(data: SpecValue)
    ensures
        Flee::spec_decode(data) matches Ok(m) ==> {
            &&& (MessageHeader::spec_decode(data) matches Ok(v) && v == m.header)
            &&& (spec_field::<u32>(data, "combat"@) matches Ok(v) && v == m.combat)
        },
{
}

/// Encoding writes each field under the key of its name, into any map.
pub proof fn law_flee_writes_fields(m: FleeView, data: SpecValue)
    requires
        data is Mapping,
    ensures
        spec_get(Flee::spec_encode(m, data), "type"@) == Some(SpecValue::String("combat:flee"@)),
        spec_get(Flee::spec_encode(m, data), "id"@) == Some(Option::<String>::spec_into_value(m.header)),
        spec_get(Flee::spec_encode(m, data), "combat"@) == Some(u32::spec_into_value(m.combat)),
{
    broadcast use crate::value::law_get_after_set, crate::value::lemma_set_is_map;

    reveal_strlit("type");
    reveal_strlit("id");
    reveal_strlit("combat");
    assert("type"@.len() != "id"@.len());
    assert("type"@.len() != "combat"@.len());
    assert("id"@.len() != "combat"@.len());
}

} // verus!
