//! Joining a chat channel.
use vstd::prelude::*;
use crate::convert::{IntoValue, str_value};
use crate::error::{Error, ErrorView};
use crate::fields::{self, spec_field};
use crate::msg::{MessageFull, MessageHeader, MessagePart};
use crate::value::{SpecValue, Value, empty_map, spec_set, spec_get};

verus! {

/// A request to join a chat channel.
#[derive(Debug, Clone)]
pub struct JoinChannel {
    pub header: MessageHeader,
    pub channel: String,
}

/// The model of a [`JoinChannel`].
pub struct JoinChannelView {
    pub header: Option<Seq<char>>,
    pub channel: Seq<char>,
}

impl DeepView for JoinChannel {
    type V = JoinChannelView;

    open spec fn deep_view(&self) -> JoinChannelView {
        JoinChannelView {
            header: self.header.deep_view(),
            channel: self.channel@,
        }
    }
}

impl MessagePart for JoinChannel {
    open spec fn spec_decode(data: SpecValue) -> Result<JoinChannelView, ErrorView> {
        match MessageHeader::spec_decode(data) {
            Err(e) => Err(e),
            Ok(header) => match spec_field::<String>(data, "channel"@) {
                Err(e) => Err(e),
                Ok(channel) => Ok(JoinChannelView { header, channel }),
            },
        }
    }

    open spec fn spec_encode(m: JoinChannelView, data: SpecValue) -> SpecValue {
        let d = data;
        let d = spec_set(d, "type"@, SpecValue::String("chat:join-channel"@));
        let d = MessageHeader::spec_encode(m.header, d);
        let d = spec_set(d, "channel"@, String::spec_into_value(m.channel));
        d
    }

    fn decode(data: &Value) -> (r: Result<JoinChannel, Error>) {
        let header = MessageHeader::decode(data)?;
        let channel = fields::get::<String>(data, "channel")?;
        Ok(JoinChannel { header, channel })
    }

    fn encode(&self, data: &mut Value) {
        data.set("type", str_value("chat:join-channel"));
        self.header.encode(data);
        data.set("channel", self.channel.clone().into_value());
    }
}

impl MessageFull for JoinChannel {
    open spec fn spec_header(&self) -> MessageHeader {
        self.header
    }

    open spec fn spec_with_header(&self, h: MessageHeader) -> JoinChannel {
        JoinChannel { header: h, ..*self }
    }

    fn header(&self) -> (r: &MessageHeader) {
        &self.header
    }

    fn header_mut(&mut self) -> (r: &mut MessageHeader) {
        &mut self.header
    }
}

/// Decoding what a join request encodes into an empty map gives it back.
pub proof fn law_join_channel_roundtrip(m: JoinChannelView)
    ensures
        JoinChannel::spec_decode(JoinChannel::spec_encode(m, empty_map())) == Ok::<JoinChannelView, ErrorView>(m),
        spec_get(JoinChannel::spec_encode(m, empty_map()), "type"@) == Some(SpecValue::String("chat:join-channel"@)),
{
    broadcast use crate::value::law_get_after_set, crate::value::lemma_set_is_map;

    reveal_strlit("type");
    reveal_strlit("id");
    reveal_strlit("channel");
    assert("type"@.len() != "id"@.len());
    assert("type"@.len() != "channel"@.len());
    assert("id"@.len() != "channel"@.len());
}

/// Decoding reads each field from the key of its name: whatever map it
/// succeeds on, each field of the result holds what its key reads as.
pub proof fn law_join_channel_reads_fields(data: SpecValue)
    ensures
        JoinChannel::spec_decode(data) matches Ok(m) ==> {
            &&& (MessageHeader::spec_decode(data) matches Ok(v) && v == m.header)
            &&& (spec_field::<String>(data, "channel"@) matches Ok(v) && v == m.channel)
        },
{
}

/// Encoding writes each field under the key of its name, into any map.
pub proof fn law_join_channel_writes_fields(m: JoinChannelView, data: SpecValue)
    requires
        data is Mapping,
    ensures
        spec_get(JoinChannel::spec_encode(m, data), "type"@) == Some(SpecValue::String("chat:join-channel"@)),
        spec_get(JoinChannel::spec_encode(m, data), "id"@) == Some(Option::<String>::spec_into_value(m.header)),
        spec_get(JoinChannel::spec_encode(m, data), "channel"@) == Some(String::spec_into_value(m.channel)),
{
    broadcast use crate::value::law_get_after_set, crate::value::lemma_set_is_map;

    reveal_strlit("type");
    reveal_strlit("id");
    reveal_strlit("channel");
    assert("type"@.len() != "id"@.len());
    assert("type"@.len() != "channel"@.len());
    assert("id"@.len() != "channel"@.len());
}

} // verus!
