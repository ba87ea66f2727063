//! The messages that clients and the server exchange, and how they are
//! read from and written to MessagePack maps.
use vstd::prelude::*;

pub mod auth;
pub mod chat;
pub mod combat;
pub mod portal;
pub mod result;
pub mod states;

pub use self::auth::{Authenticate, AuthenticateView};
pub use self::result::{ResultDataView, ResultMessage, ResultMessageView};
use crate::convert::IntoValue;
use crate::error::{Error, ErrorView, result_view};
use crate::fields::{self, spec_field};
use crate::value::{SpecValue, Value, empty_map, spec_get, spec_set};
use vstd::string::StringExecFns;

verus! {

/// A part of a message: it can be read from a map and written into one.
pub trait MessagePart: Sized + DeepView {
    /// The model of what `decode` makes of a value with model `data`.
    spec fn spec_decode(data: SpecValue) -> Result<<Self as DeepView>::V, ErrorView>;

    /// The model of the map `data` after `encode` wrote a part with model `m`
    /// into it.
    spec fn spec_encode(m: <Self as DeepView>::V, data: SpecValue) -> SpecValue;

    fn decode(data: &Value) -> (r: Result<Self, Error>)
        ensures
            result_view(r) == Self::spec_decode(data@),
    ;

    fn encode(&self, data: &mut Value)
        ensures
            final(data)@ == Self::spec_encode(self.deep_view(), old(data)@),
    ;

    /// The part written into an empty map.
    fn value(&self) -> (r: Value)
        ensures
            r@ == Self::spec_encode(self.deep_view(), empty_map()),
    {
        let mut data = Value::Mapping(Vec::new());
        proof {
            crate::value::lemma_mapping_view(data->Mapping_0);
            assert(crate::value::pairs_view(data->Mapping_0@) =~= Seq::empty());
        }
        self.encode(&mut data);
        data
    }
}

/// A whole message, which carries a header.
pub trait MessageFull: MessagePart {
    spec fn spec_header(&self) -> MessageHeader;

    /// This message with its header replaced by `h`.
    spec fn spec_with_header(&self, h: MessageHeader) -> Self;

    fn header(&self) -> (r: &MessageHeader)
        ensures
            *r == self.spec_header(),
    ;

    fn header_mut(&mut self) -> (r: &mut MessageHeader)
        ensures
            *r == old(self).spec_header(),
            *final(self) == old(self).spec_with_header(*final(r)),
    ;
}

/// The text of the error for a `type` field that names no known message.
pub open spec fn unknown_type_text(t: Seq<char>) -> Seq<char> {
    "Unknown message type `"@ + t + "`"@
}

/// The error for a `type` field that names no known message.
pub fn unknown_type(t: String) -> (e: Error)
    ensures
        e.deep_view() == ErrorView::InvalidField("type"@, unknown_type_text(t@)),
{
    Error::InvalidField("type", String::from_str("Unknown message type `").concat(t.as_str()).concat("`"))
}

/// A lower-case hexadecimal digit.
pub open spec fn is_lower_hex(c: char) -> bool {
    ('0' <= c <= '9') || ('a' <= c <= 'f')
}

/// The hyphenated lower-case text of a random (version 4, RFC 4122 variant)
/// UUID, such as `67e55044-10b1-426f-9247-bb680e5fe0c8`.
pub open spec fn is_v4_uuid_text(s: Seq<char>) -> bool {
    &&& s.len() == 36
    &&& forall|i: int|
        0 <= i < 36 ==> if i == 8 || i == 13 || i == 18 || i == 23 {
            #[trigger] s[i] == '-'
        } else {
            is_lower_hex(s[i])
        }
    &&& s[14] == '4'
    &&& (s[19] == '8' || s[19] == '9' || s[19] == 'a' || s[19] == 'b')
}

/// `uuid::Uuid::new_v4` formatted with `hyphenated()`: the uuid crate draws
/// 128 random bits and forces the version nibble to 4 and the variant bits to
/// `10`, and the hyphenated form prints lower-case hexadecimal in groups of
/// 8-4-4-4-12. Only that shape is claimed; which UUID comes out is chance.
#[verifier::external_body]
fn new_v4_uuid_text() -> (r: String)
    ensures
        is_v4_uuid_text(r@),
{
    uuid::Uuid::new_v4().hyphenated().to_string()
}

/// The header of a message.
#[derive(Debug, Clone)]
pub struct MessageHeader {
    /// The message ID, if any.
    pub id: Option<String>,
}

impl DeepView for MessageHeader {
    type V = Option<Seq<char>>;

    open spec fn deep_view(&self) -> Option<Seq<char>> {
        self.id.deep_view()
    }
}

impl MessageHeader {
    /// A header with a fresh random ID.
    pub fn new() -> (r: MessageHeader)
        ensures
            r.id matches Some(id) && is_v4_uuid_text(id@),
    {
        let mut header = MessageHeader { id: None };
        header.ensure_id();
        header
    }

    /// The message ID, after giving the header a fresh random one if it had
    /// none.
    pub fn ensure_id(&mut self) -> (r: String)
        ensures
            old(self).id matches Some(id) ==> r@ == id@,
            old(self).id is None ==> is_v4_uuid_text(r@),
            final(self).id matches Some(id) && id@ == r@,
    {
        let id = match &self.id {
            Some(id) => id.clone(),
            None => new_v4_uuid_text(),
        };
        self.id = Some(id.clone());
        id
    }

    /// A copy of this header.
    pub fn clone_header(&self) -> (r: MessageHeader)
        ensures
            r.deep_view() == self.deep_view(),
    {
        match &self.id {
            Some(id) => MessageHeader { id: Some(id.clone()) },
            None => MessageHeader { id: None },
        }
    }
}

impl MessagePart for MessageHeader {
    open spec fn spec_decode(data: SpecValue) -> Result<Option<Seq<char>>, ErrorView> {
        fields::spec_field::<Option<String>>(data, "id"@)
    }

    open spec fn spec_encode(m: Option<Seq<char>>, data: SpecValue) -> SpecValue {
        spec_set(data, "id"@, Option::<String>::spec_into_value(m))
    }

    fn decode(data: &Value) -> (r: Result<MessageHeader, Error>) {
        match fields::get::<Option<String>>(data, "id") {
            Ok(id) => Ok(MessageHeader { id: id }),
            Err(e) => Err(e),
        }
    }

    fn encode(&self, data: &mut Value) {
        let id = match &self.id {
            Some(id) => Some(id.clone()),
            None => None,
        };
        data.set("id", id.into_value());
    }
}

/// A message of any kind.
#[derive(Debug, Clone)]
pub enum Message {
    Chat(chat::Message),
    Combat(combat::Message),
    Portal(portal::Message),
    Authenticate(Authenticate),
    Result(ResultMessage),
}

/// The model of a [`Message`].
pub enum MessageView {
    Chat(chat::MessageView),
    Combat(combat::MessageView),
    Portal(portal::MessageView),
    Authenticate(AuthenticateView),
    Result(ResultMessageView),
}

impl DeepView for Message {
    type V = MessageView;

    open spec fn deep_view(&self) -> MessageView {
        match self {
            Message::Chat(m) => MessageView::Chat(m.deep_view()),
            Message::Combat(m) => MessageView::Combat(m.deep_view()),
            Message::Portal(m) => MessageView::Portal(m.deep_view()),
            Message::Authenticate(m) => MessageView::Authenticate(m.deep_view()),
            Message::Result(m) => MessageView::Result(m.deep_view()),
        }
    }
}

impl MessagePart for Message {
    /// The kinds of messages that have their own families are tried first, in order;
    /// then the `type` field picks the message.
    open spec fn spec_decode(data: SpecValue) -> Result<MessageView, ErrorView> {
        match chat::Message::spec_decode(data) {
            Ok(m) => Ok(MessageView::Chat(m)),
            Err(_) => match combat::Message::spec_decode(data) {
                Ok(m) => Ok(MessageView::Combat(m)),
                Err(_) => match portal::Message::spec_decode(data) {
                    Ok(m) => Ok(MessageView::Portal(m)),
                    Err(_) => match spec_field::<String>(data, "type"@) {
                        Err(e) => Err(e),
                        Ok(t) => if t == "authenticate"@ {
                            match Authenticate::spec_decode(data) {
                                Ok(m) => Ok(MessageView::Authenticate(m)),
                                Err(e) => Err(e),
                            }
                        } else {
                            if t == "result"@ {
                                match ResultMessage::spec_decode(data) {
                                    Ok(m) => Ok(MessageView::Result(m)),
                                    Err(e) => Err(e),
                                }
                            } else {
                                Err(ErrorView::InvalidField("type"@, unknown_type_text(t)))
                            }
                        },
                    },
                },
            },
        }
    }

    open spec fn spec_encode(m: MessageView, data: SpecValue) -> SpecValue {
        match m {
            MessageView::Chat(msg) => chat::Message::spec_encode(msg, data),
            MessageView::Combat(msg) => combat::Message::spec_encode(msg, data),
            MessageView::Portal(msg) => portal::Message::spec_encode(msg, data),
            MessageView::Authenticate(msg) => Authenticate::spec_encode(msg, data),
            MessageView::Result(msg) => ResultMessage::spec_encode(msg, data),
        }
    }

    fn decode(data: &Value) -> (r: Result<Message, Error>) {
        if let Ok(msg) = chat::Message::decode(data) {
            return Ok(Message::Chat(msg));
        }
        if let Ok(msg) = combat::Message::decode(data) {
            return Ok(Message::Combat(msg));
        }
        if let Ok(msg) = portal::Message::decode(data) {
            return Ok(Message::Portal(msg));
        }
        let t = fields::get::<String>(data, "type")?;
        if t == String::from_str("authenticate") {
            match Authenticate::decode(data) {
                Ok(msg) => Ok(Message::Authenticate(msg)),
                Err(e) => Err(e),
            }
        } else if t == String::from_str("result") {
            match ResultMessage::decode(data) {
                Ok(msg) => Ok(Message::Result(msg)),
                Err(e) => Err(e),
            }
        } else {
            Err(unknown_type(t))
        }
    }

    fn encode(&self, data: &mut Value) {
        match self {
            Message::Chat(msg) => msg.encode(data),
            Message::Combat(msg) => msg.encode(data),
            Message::Portal(msg) => msg.encode(data),
            Message::Authenticate(msg) => msg.encode(data),
            Message::Result(msg) => msg.encode(data),
        }
    }
}

impl MessageFull for Message {
    open spec fn spec_header(&self) -> MessageHeader {
        match self {
            Message::Chat(msg) => msg.spec_header(),
            Message::Combat(msg) => msg.spec_header(),
            Message::Portal(msg) => msg.spec_header(),
            Message::Authenticate(msg) => msg.spec_header(),
            Message::Result(msg) => msg.spec_header(),
        }
    }

    open spec fn spec_with_header(&self, h: MessageHeader) -> Message {
        match self {
            Message::Chat(msg) => Message::Chat(msg.spec_with_header(h)),
            Message::Combat(msg) => Message::Combat(msg.spec_with_header(h)),
            Message::Portal(msg) => Message::Portal(msg.spec_with_header(h)),
            Message::Authenticate(msg) => Message::Authenticate(msg.spec_with_header(h)),
            Message::Result(msg) => Message::Result(msg.spec_with_header(h)),
        }
    }

    fn header(&self) -> (r: &MessageHeader) {
        match self {
            Message::Chat(msg) => msg.header(),
            Message::Combat(msg) => msg.header(),
            Message::Portal(msg) => msg.header(),
            Message::Authenticate(msg) => msg.header(),
            Message::Result(msg) => msg.header(),
        }
    }

    fn header_mut(&mut self) -> (r: &mut MessageHeader) {
        match self {
            Message::Chat(msg) => msg.header_mut(),
            Message::Combat(msg) => msg.header_mut(),
            Message::Portal(msg) => msg.header_mut(),
            Message::Authenticate(msg) => msg.header_mut(),
            Message::Result(msg) => msg.header_mut(),
        }
    }
}

/// Whether a message comes back from the map it encodes into: every chat,
/// portal and authentication message does, a combat message as
/// [`combat::roundtrips`] says, and a result whose data is empty.
pub open spec fn roundtrips(m: MessageView) -> bool {
    match m {
        MessageView::Combat(c) => combat::roundtrips(c),
        MessageView::Result(r) => {
            &&& (r.data matches ResultDataView::Success(d) ==> d == empty_map())
            &&& (r.data matches ResultDataView::Error { data, .. } ==> data == empty_map())
        },
        _ => true,
    }
}

/// Decoding what a message encodes into an empty map gives the message back,
/// for each message that [`roundtrips`].
pub proof fn law_message_roundtrip(m: MessageView)
    requires
        roundtrips(m),
    ensures
        Message::spec_decode(Message::spec_encode(m, empty_map())) == Ok::<MessageView, ErrorView>(m),
{
    reveal_strlit("chat:join-channel");
    reveal_strlit("portal:capture");
    reveal_strlit("authenticate");
    reveal_strlit("result");
    let d = Message::spec_encode(m, empty_map());
    match m {
        MessageView::Chat(c) => chat::law_chat_message_roundtrip(c),
        MessageView::Combat(c) => {
            combat::law_combat_message_roundtrip(c);
            combat::lemma_combat_tag(c);
        },
        MessageView::Portal(p) => {
            portal::law_portal_message_roundtrip(p);
            combat::lemma_combat_rejects(d, "portal:capture"@);
        },
        MessageView::Authenticate(a) => {
            auth::law_authenticate_roundtrip(a);
            combat::lemma_combat_rejects(d, "authenticate"@);
        },
        MessageView::Result(r) => {
            result::law_result_roundtrip(r);
            combat::lemma_combat_rejects(d, "result"@);
        },
    }
}

/// A header is read from `id` and written under `id`, into any map.
pub proof fn law_header_field(m: Option<Seq<char>>, data: SpecValue)
    ensures
        MessageHeader::spec_decode(data) matches Ok(h) ==> (spec_field::<Option<String>>(data, "id"@) matches Ok(v)
            && v == h),
        data is Mapping ==> spec_get(MessageHeader::spec_encode(m, data), "id"@) == Some(
            Option::<String>::spec_into_value(m),
        ),
{
    broadcast use crate::value::law_get_after_set;

}

} // verus!
