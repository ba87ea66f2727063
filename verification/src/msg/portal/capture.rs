//! Capturing a portal.
use vstd::prelude::*;
use crate::convert::{IntoValue, str_value};
use crate::error::{Error, ErrorView};
use crate::fields::{self, spec_field};
use crate::msg::{MessageFull, MessageHeader, MessagePart};
use crate::value::{SpecValue, Value, empty_map, spec_set, spec_get};

verus! {

/// A request to capture a portal with a monster.
#[derive(Debug, Clone)]
pub struct Capture {
    pub header: MessageHeader,
    pub portal_id: u32,
    pub monster: u32,
}

/// The model of a [`Capture`].
pub struct CaptureView {
    pub header: Option<Seq<char>>,
    pub portal_id: u32,
    pub monster: u32,
}

impl DeepView for Capture {
    type V = CaptureView;

    open spec fn deep_view(&self) -> CaptureView {
        CaptureView {
            header: self.header.deep_view(),
            portal_id: self.portal_id,
            monster: self.monster,
        }
    }
}

impl MessagePart for Capture {
    open spec fn spec_decode(data: SpecValue) -> Result<CaptureView, ErrorView> {
        match MessageHeader::spec_decode(data) {
            Err(e) => Err(e),
            Ok(header) => match spec_field::<u32>(data, "portal_id"@) {
                Err(e) => Err(e),
                Ok(portal_id) => match spec_field::<u32>(data, "monster"@) {
                    Err(e) => Err(e),
                    Ok(monster) => Ok(CaptureView { header, portal_id, monster }),
                },
            },
        }
    }

    open spec fn spec_encode(m: CaptureView, data: SpecValue) -> SpecValue {
        let d = data;
        let d = spec_set(d, "type"@, SpecValue::String("portal:capture"@));
        let d = MessageHeader::spec_encode(m.header, d);
        let d = spec_set(d, "portal_id"@, u32::spec_into_value(m.portal_id));
        let d = spec_set(d, "monster"@, u32::spec_into_value(m.monster));
        d
    }

    fn decode(data: &Value) -> (r: Result<Capture, Error>) {
        let header = MessageHeader::decode(data)?;
        let portal_id = fields::get::<u32>(data, "portal_id")?;
        let monster = fields::get::<u32>(data, "monster")?;
        Ok(Capture { header, portal_id, monster })
    }

    fn encode(&self, data: &mut Value) {
        data.set("type", str_value("portal:capture"));
        self.header.encode(data);
        data.set("portal_id", self.portal_id.into_value());
        data.set("monster", self.monster.into_value());
    }
}

impl MessageFull for Capture {
    open spec fn spec_header(&self) -> MessageHeader {
        self.header
    }

    open spec fn spec_with_header(&self, h: MessageHeader) -> Capture {
        Capture { header: h, ..*self }
    }

    fn header(&self) -> (r: &MessageHeader) {
        &self.header
    }

    fn header_mut(&mut self) -> (r: &mut MessageHeader) {
        &mut self.header
    }
}

/// Decoding what a portal capture request encodes into an empty map gives it back.
pub proof fn law_portal_capture_roundtrip(m: CaptureView)
    ensures
        Capture::spec_decode(Capture::spec_encode(m, empty_map())) == Ok::<CaptureView, ErrorView>(m),
        spec_get(Capture::spec_encode(m, empty_map()), "type"@) == Some(SpecValue::String("portal:capture"@)),
{
    broadcast use crate::value::law_get_after_set, crate::value::lemma_set_is_map;

    reveal_strlit("type");
    reveal_strlit("id");
    reveal_strlit("portal_id");
    reveal_strlit("monster");
    assert("type"@.len() != "id"@.len());
    assert("type"@.len() != "portal_id"@.len());
    assert("type"@.len() != "monster"@.len());
    assert("id"@.len() != "portal_id"@.len());
    assert("id"@.len() != "monster"@.len());
    assert("portal_id"@.len() != "monster"@.len());
}

/// Decoding reads each field from the key of its name: whatever map it
/// succeeds on, each field of the result holds what its key reads as.
pub proof fn law_portal_capture_reads_fields(data: SpecValue)
    ensures
        Capture::spec_decode(data) matches Ok(m) ==> {
            &&& (MessageHeader::spec_decode(data) matches Ok(v) && v == m.header)
            &&& (spec_field::<u32>(data, "portal_id"@) matches Ok(v) && v == m.portal_id)
            &&& (spec_field::<u32>(data, "monster"@) matches Ok(v) && v == m.monster)
        },
{
}

/// Encoding writes each field under the key of its name, into any map.
pub proof fn law_portal_capture_writes_fields(m: CaptureView, data: SpecValue)
    requires
        data is Mapping,
    ensures
        spec_get(Capture::spec_encode(m, data), "type"@) == Some(SpecValue::String("portal:capture"@)),
        spec_get(Capture::spec_encode(m, data), "id"@) == Some(Option::<String>::spec_into_value(m.header)),
        spec_get(Capture::spec_encode(m, data), "portal_id"@) == Some(u32::spec_into_value(m.portal_id)),
        spec_get(Capture::spec_encode(m, data), "monster"@) == Some(u32::spec_into_value(m.monster)),
{
    broadcast use crate::value::law_get_after_set, crate::value::lemma_set_is_map;

    reveal_strlit("type");
    reveal_strlit("id");
    reveal_strlit("portal_id");
    reveal_strlit("monster");
    assert("type"@.len() != "id"@.len());
    assert("type"@.len() != "portal_id"@.len());
    assert("type"@.len() != "monster"@.len());
    assert("id"@.len() != "portal_id"@.len());
    assert("id"@.len() != "monster"@.len());
    assert("portal_id"@.len() != "monster"@.len());
}

} // verus!
