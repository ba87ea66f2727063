//! Capturing a knocked-out monster.
use vstd::prelude::*;
use crate::convert::{IntoValue, clone_opt_string, str_value};
use crate::error::{Error, ErrorView};
use crate::fields::{self, spec_field};
use crate::msg::{MessageFull, MessageHeader, MessagePart};
use crate::value::{SpecValue, Value, empty_map, spec_set, spec_get};

verus! {

/// Whether to capture a knocked-out monster, and the name to give it.
#[derive(Debug, Clone)]
pub struct Capture {
    pub header: MessageHeader,
    pub capture: bool,
    pub name: Option<String>,
}

/// The model of a [`Capture`].
pub struct CaptureView {
    pub header: Option<Seq<char>>,
    pub capture: bool,
    pub name: Option<Seq<char>>,
}

impl DeepView for Capture {
    type V = CaptureView;

    open spec fn deep_view(&self) -> CaptureView {
        CaptureView {
            header: self.header.deep_view(),
            capture: self.capture,
            name: self.name.deep_view(),
        }
    }
}

impl MessagePart for Capture {
    open spec fn spec_decode(data: SpecValue) -> Result<CaptureView, ErrorView> {
        match MessageHeader::spec_decode(data) {
            Err(e) => Err(e),
            Ok(header) => match spec_field::<bool>(data, "capture"@) {
                Err(e) => Err(e),
                Ok(capture) => match spec_field::<Option<String>>(data, "name"@) {
                    Err(e) => Err(e),
                    Ok(name) => Ok(CaptureView { header, capture, name }),
                },
            },
        }
    }

    /// The `type` tag written is the one that replacement answers carry.
    open spec fn spec_encode(m: CaptureView, data: SpecValue) -> SpecValue {
        let d = data;
        let d = spec_set(d, "type"@, SpecValue::String("combat:monster-ko:replace"@));
        let d = MessageHeader::spec_encode(m.header, d);
        let d = spec_set(d, "capture"@, bool::spec_into_value(m.capture));
        let d = spec_set(d, "name"@, Option::<String>::spec_into_value(m.name));
        d
    }

    fn decode(data: &Value) -> (r: Result<Capture, Error>) {
        let header = MessageHeader::decode(data)?;
        let capture = fields::get::<bool>(data, "capture")?;
        let name = fields::get::<Option<String>>(data, "name")?;
        Ok(Capture { header, capture, name })
    }

    fn encode(&self, data: &mut Value) {
        data.set("type", str_value("combat:monster-ko:replace"));
        self.header.encode(data);
        data.set("capture", self.capture.into_value());
        data.set("name", clone_opt_string(&self.name).into_value());
    }
}

impl MessageFull for Capture {
    open spec fn spec_header(&self) -> MessageHeader {
        self.header
    }

    open spec fn spec_with_header(&self, h: MessageHeader) -> Capture {
        Capture { header: h, ..*self }
    }

    fn header(&self) -> (r: &MessageHeader) {
        &self.header
    }

    fn header_mut(&mut self) -> (r: &mut MessageHeader) {
        &mut self.header
    }
}

/// Decoding what a capture answer encodes into an empty map gives it back.
pub proof fn law_ko_capture_roundtrip(m: CaptureView)
    ensures
        Capture::spec_decode(Capture::spec_encode(m, empty_map())) == Ok::<CaptureView, ErrorView>(m),
        spec_get(Capture::spec_encode(m, empty_map()), "type"@) == Some(SpecValue::String("combat:monster-ko:replace"@)),
{
    broadcast use crate::value::law_get_after_set, crate::value::lemma_set_is_map;

    reveal_strlit("type");
    reveal_strlit("id");
    reveal_strlit("capture");
    reveal_strlit("name");
    assert("type"@.len() != "id"@.len());
    assert("type"@.len() != "capture"@.len());
    assert("type"@[0] == 't' && "name"@[0] == 'n');
    assert("id"@.len() != "capture"@.len());
    assert("id"@.len() != "name"@.len());
    assert("capture"@.len() != "name"@.len());
}

/// Decoding reads each field from the key of its name: whatever map it
/// succeeds on, each field of the result holds what its key reads as.
pub proof fn law_ko_capture_reads_fields(data: SpecValue)
    ensures
        Capture::spec_decode(data) matches Ok(m) ==> {
            &&& (MessageHeader::spec_decode(data) matches Ok(v) && v == m.header)
            &&& (spec_field::<bool>(data, "capture"@) matches Ok(v) && v == m.capture)
            &&& (spec_field::<Option<String>>(data, "name"@) matches Ok(v) && v == m.name)
        },
{
}

/// Encoding writes each field under the key of its name, into any map.
pub proof fn law_ko_capture_writes_fields(m: CaptureView, data: SpecValue)
    requires
        data is Mapping,
    ensures
        spec_get(Capture::spec_encode(m, data), "type"@) == Some(SpecValue::String("combat:monster-ko:replace"@)),
        spec_get(Capture::spec_encode(m, data), "id"@) == Some(Option::<String>::spec_into_value(m.header)),
        spec_get(Capture::spec_encode(m, data), "capture"@) == Some(bool::spec_into_value(m.capture)),
        spec_get(Capture::spec_encode(m, data), "name"@) == Some(Option::<String>::spec_into_value(m.name)),
{
    broadcast use crate::value::law_get_after_set, crate::value::lemma_set_is_map;

    reveal_strlit("type");
    reveal_strlit("id");
    reveal_strlit("capture");
    reveal_strlit("name");
    assert("type"@.len() != "id"@.len());
    assert("type"@.len() != "capture"@.len());
    assert("type"@[0] == 't' && "name"@[0] == 'n');
    assert("id"@.len() != "capture"@.len());
    assert("id"@.len() != "name"@.len());
    assert("capture"@.len() != "name"@.len());
}

} // verus!
