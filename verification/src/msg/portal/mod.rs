//! Portal messages.
use vstd::prelude::*;
use vstd::string::StringExecFns;
use crate::error::{Error, ErrorView};
use crate::fields::{self, spec_field};
use crate::msg::{MessageFull, MessageHeader, MessagePart, unknown_type, unknown_type_text};
use crate::value::{SpecValue, Value, empty_map, spec_get};

pub mod capture;

pub use self::capture::{Capture, CaptureView};

verus! {

/// A portal message.
#[derive(Debug, Clone)]
pub enum Message {
    Capture(Capture),
}

/// The model of a [`Message`].
pub enum MessageView {
    Capture(CaptureView),
}

impl DeepView for Message {
    type V = MessageView;

    open spec fn deep_view(&self) -> MessageView {
        match self {
            Message::Capture(m) => MessageView::Capture(m.deep_view()),
        }
    }
}

impl MessagePart for Message {
    /// The `type` field picks the message.
    open spec fn spec_decode(data: SpecValue) -> Result<MessageView, ErrorView> {
        match spec_field::<String>(data, "type"@) {
            Err(e) => Err(e),
            Ok(t) => if t == "portal:capture"@ {
                match Capture::spec_decode(data) {
                    Ok(m) => Ok(MessageView::Capture(m)),
                    Err(e) => Err(e),
                }
            } else {
                Err(ErrorView::InvalidField("type"@, unknown_type_text(t)))
            },
        }
    }

    open spec fn spec_encode(m: MessageView, data: SpecValue) -> SpecValue {
        match m {
            MessageView::Capture(msg) => Capture::spec_encode(msg, data),
        }
    }

    fn decode(data: &Value) -> (r: Result<Message, Error>) {
        let t = fields::get::<String>(data, "type")?;
        if t == String::from_str("portal:capture") {
            match Capture::decode(data) {
                Ok(msg) => Ok(Message::Capture(msg)),
                Err(e) => Err(e),
            }
        } else {
            Err(unknown_type(t))
        }
    }

    fn encode(&self, data: &mut Value) {
        match self {
            Message::Capture(msg) => msg.encode(data),
        }
    }
}

impl MessageFull for Message {
    open spec fn spec_header(&self) -> MessageHeader {
        match self {
            Message::Capture(msg) => msg.spec_header(),
        }
    }

    open spec fn spec_with_header(&self, h: MessageHeader) -> Message {
        match self {
            Message::Capture(msg) => Message::Capture(msg.spec_with_header(h)),
        }
    }

    fn header(&self) -> (r: &MessageHeader) {
        match self {
            Message::Capture(msg) => msg.header(),
        }
    }

    fn header_mut(&mut self) -> (r: &mut MessageHeader) {
        match self {
            Message::Capture(msg) => msg.header_mut(),
        }
    }
}

/// Decoding what a portal message encodes into an empty map gives it back;
/// the map is tagged `portal:capture`.
pub proof fn law_portal_message_roundtrip(m: MessageView)
    ensures
        Message::spec_decode(Message::spec_encode(m, empty_map())) == Ok::<MessageView, ErrorView>(m),
        spec_get(Message::spec_encode(m, empty_map()), "type"@) == Some(SpecValue::String("portal:capture"@)),
{
    match m {
        MessageView::Capture(c) => capture::law_portal_capture_roundtrip(c),
    }
}

} // verus!
