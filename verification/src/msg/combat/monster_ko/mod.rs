//! Knocked-out monsters.
use vstd::prelude::*;
use crate::convert::{IntoValue, str_value};
use crate::error::{Error, ErrorView};
use crate::fields::{self, spec_field};
use crate::msg::{MessageFull, MessageHeader, MessagePart, unknown_type, unknown_type_text};
use vstd::string::StringExecFns;
use crate::value::{SpecValue, Value, empty_map, spec_set, spec_get};

pub mod capture;
pub mod replace;

pub use self::capture::{Capture, CaptureView};
pub use self::replace::{Replace, ReplaceView};

verus! {

/// The notice that a monster was knocked out.
#[derive(Debug, Clone)]
pub struct MonsterKo {
    pub header: MessageHeader,
    pub monster: u32,
}

/// The model of a [`MonsterKo`].
pub struct MonsterKoView {
    pub header: Option<Seq<char>>,
    pub monster: u32,
}

impl DeepView for MonsterKo {
    type V = MonsterKoView;

    open spec fn deep_view(&self) -> MonsterKoView {
        MonsterKoView {
            header: self.header.deep_view(),
            monster: self.monster,
        }
    }
}

impl MessagePart for MonsterKo {
    open spec fn spec_decode(data: SpecValue) -> Result<MonsterKoView, ErrorView> {
        match MessageHeader::spec_decode(data) {
            Err(e) => Err(e),
            Ok(header) => match spec_field::<u32>(data, "monster"@) {
                Err(e) => Err(e),
                Ok(monster) => Ok(MonsterKoView { header, monster }),
            },
        }
    }

    open spec fn spec_encode(m: MonsterKoView, data: SpecValue) -> SpecValue {
        let d = data;
        let d = spec_set(d, "type"@, SpecValue::String("combat:monster-ko"@));
        let d = MessageHeader::spec_encode(m.header, d);
        let d = spec_set(d, "monster"@, u32::spec_into_value(m.monster));
        d
    }

    fn decode(data: &Value) -> (r: Result<MonsterKo, Error>) {
        let header = MessageHeader::decode(data)?;
        let monster = fields::get::<u32>(data, "monster")?;
        Ok(MonsterKo { header, monster })
    }

    fn encode(&self, data: &mut Value) {
        data.set("type", str_value("combat:monster-ko"));
        self.header.encode(data);
        data.set("monster", self.monster.into_value());
    }
}

impl MessageFull for MonsterKo {
    open spec fn spec_header(&self) -> MessageHeader {
        self.header
    }

    open spec fn spec_with_header(&self, h: MessageHeader) -> MonsterKo {
        MonsterKo { header: h, ..*self }
    }

    fn header(&self) -> (r: &MessageHeader) {
        &self.header
    }

    fn header_mut(&mut self) -> (r: &mut MessageHeader) {
        &mut self.header
    }
}

/// Decoding what a knock-out notice encodes into an empty map gives it back.
pub proof fn law_monster_ko_roundtrip(m: MonsterKoView)
    ensures
        MonsterKo::spec_decode(MonsterKo::spec_encode(m, empty_map())) == Ok::<MonsterKoView, ErrorView>(m),
        spec_get(MonsterKo::spec_encode(m, empty_map()), "type"@) == Some(SpecValue::String("combat:monster-ko"@)),
{
    broadcast use crate::value::law_get_after_set, crate::value::lemma_set_is_map;

    reveal_strlit("type");
    reveal_strlit("id");
    reveal_strlit("monster");
    assert("type"@.len() != "id"@.len());
    assert("type"@.len() != "monster"@.len());
    assert("id"@.len() != "monster"@.len());
}

/// A message about a knocked-out monster.
#[derive(Debug, Clone)]
pub enum Message {
    Base(MonsterKo),
    Capture(Capture),
    Replace(Replace),
}

/// The model of a [`Message`].
pub enum MessageView {
    Base(MonsterKoView),
    Capture(CaptureView),
    Replace(ReplaceView),
}

impl DeepView for Message {
    type V = MessageView;

    open spec fn deep_view(&self) -> MessageView {
        match self {
            Message::Base(m) => MessageView::Base(m.deep_view()),
            Message::Capture(m) => MessageView::Capture(m.deep_view()),
            Message::Replace(m) => MessageView::Replace(m.deep_view()),
        }
    }
}

impl MessagePart for Message {
    /// The `type` field picks the message.
    open spec fn spec_decode(data: SpecValue) -> Result<MessageView, ErrorView> {
        match spec_field::<String>(data, "type"@) {
            Err(e) => Err(e),
            Ok(t) => if t == "combat:monster-ko"@ {
                match MonsterKo::spec_decode(data) {
                    Ok(m) => Ok(MessageView::Base(m)),
                    Err(e) => Err(e),
                }
            } else {
                if t == "combat:monster-ko:capture"@ {
                    match Capture::spec_decode(data) {
                        Ok(m) => Ok(MessageView::Capture(m)),
                        Err(e) => Err(e),
                    }
                } else {
                    if t == "combat:monster-ko:replace"@ {
                        match Replace::spec_decode(data) {
                            Ok(m) => Ok(MessageView::Replace(m)),
                            Err(e) => Err(e),
                        }
                    } else {
                        Err(ErrorView::InvalidField("type"@, unknown_type_text(t)))
                    }
                }
            },
        }
    }

    open spec fn spec_encode(m: MessageView, data: SpecValue) -> SpecValue {
        match m {
            MessageView::Base(msg) => MonsterKo::spec_encode(msg, data),
            MessageView::Capture(msg) => Capture::spec_encode(msg, data),
            MessageView::Replace(msg) => Replace::spec_encode(msg, data),
        }
    }

    fn decode(data: &Value) -> (r: Result<Message, Error>) {
        let t = fields::get::<String>(data, "type")?;
        if t == String::from_str("combat:monster-ko") {
            match MonsterKo::decode(data) {
                Ok(msg) => Ok(Message::Base(msg)),
                Err(e) => Err(e),
            }
        } else if t == String::from_str("combat:monster-ko:capture") {
            match Capture::decode(data) {
                Ok(msg) => Ok(Message::Capture(msg)),
                Err(e) => Err(e),
            }
        } else if t == String::from_str("combat:monster-ko:replace") {
            match Replace::decode(data) {
                Ok(msg) => Ok(Message::Replace(msg)),
                Err(e) => Err(e),
            }
        } else {
            Err(unknown_type(t))
        }
    }

    fn encode(&self, data: &mut Value) {
        match self {
            Message::Base(msg) => msg.encode(data),
            Message::Capture(msg) => msg.encode(data),
            Message::Replace(msg) => msg.encode(data),
        }
    }
}

impl MessageFull for Message {
    open spec fn spec_header(&self) -> MessageHeader {
        match self {
            Message::Base(msg) => msg.spec_header(),
            Message::Capture(msg) => msg.spec_header(),
            Message::Replace(msg) => msg.header,
        }
    }

    open spec fn spec_with_header(&self, h: MessageHeader) -> Message {
        match self {
            Message::Base(msg) => Message::Base(msg.spec_with_header(h)),
            Message::Capture(msg) => Message::Capture(msg.spec_with_header(h)),
            Message::Replace(msg) => Message::Replace(Replace { header: h, ..*msg }),
        }
    }

    fn header(&self) -> (r: &MessageHeader) {
        match self {
            Message::Base(msg) => msg.header(),
            Message::Capture(msg) => msg.header(),
            Message::Replace(msg) => &msg.header,
        }
    }

    fn header_mut(&mut self) -> (r: &mut MessageHeader) {
        match self {
            Message::Base(msg) => msg.header_mut(),
            Message::Capture(msg) => msg.header_mut(),
            Message::Replace(msg) => &mut msg.header,
        }
    }
}

/// The `type` tag that a knock-out message writes. A capture is written with
/// the tag of a replacement.
pub open spec fn message_tag(m: MessageView) -> Seq<char> {
    match m {
        MessageView::Base(_) => "combat:monster-ko"@,
        MessageView::Capture(_) => "combat:monster-ko:replace"@,
        MessageView::Replace(_) => "combat:monster-ko:replace"@,
    }
}

/// Decoding what a knock-out message encodes into an empty map gives it back,
/// but for a capture, which is written under the tag of a replacement.
pub proof fn law_ko_message_roundtrip(m: MessageView)
    requires
        !(m is Capture),
    ensures
        Message::spec_decode(Message::spec_encode(m, empty_map())) == Ok::<MessageView, ErrorView>(m),
        spec_get(Message::spec_encode(m, empty_map()), "type"@) == Some(SpecValue::String(message_tag(m))),
{
    reveal_strlit("combat:monster-ko");
    reveal_strlit("combat:monster-ko:capture");
    reveal_strlit("combat:monster-ko:replace");
    match m {
        MessageView::Base(b) => law_monster_ko_roundtrip(b),
        MessageView::Capture(_) => {},
        MessageView::Replace(r) => {
            replace::law_ko_replace_roundtrip(r);
            assert("combat:monster-ko:replace"@[18] != "combat:monster-ko:capture"@[18]);
        },
    }
}

/// A capture comes back from its map as a replacement, or not at all.
pub proof fn law_ko_capture_is_read_as_replace(c: CaptureView)
    ensures
        Message::spec_decode(Message::spec_encode(MessageView::Capture(c), empty_map())) matches Ok(r)
            ==> r is Replace,
        spec_get(Message::spec_encode(MessageView::Capture(c), empty_map()), "type"@)
            == Some(SpecValue::String("combat:monster-ko:replace"@)),
{
    capture::law_ko_capture_roundtrip(c);
    reveal_strlit("combat:monster-ko");
    reveal_strlit("combat:monster-ko:capture");
    reveal_strlit("combat:monster-ko:replace");
    assert("combat:monster-ko:replace"@[18] != "combat:monster-ko:capture"@[18]);
}

/// Decoding reads each field from the key of its name: whatever map it
/// succeeds on, each field of the result holds what its key reads as.
pub proof fn law_monster_ko_reads_fields(data: SpecValue)
    ensures
        MonsterKo::spec_decode(data) matches Ok(m) ==> {
            &&& (MessageHeader::spec_decode(data) matches Ok(v) && v == m.header)
            &&& (spec_field::<u32>(data, "monster"@) matches Ok(v) && v == m.monster)
        },
{
}

/// Encoding writes each field under the key of its name, into any map.
pub proof fn law_monster_ko_writes_fields(m: MonsterKoView, data: SpecValue)
    requires
        data is Mapping,
    ensures
        spec_get(MonsterKo::spec_encode(m, data), "type"@) == Some(SpecValue::String("combat:monster-ko"@)),
        spec_get(MonsterKo::spec_encode(m, data), "id"@) == Some(Option::<String>::spec_into_value(m.header)),
        spec_get(MonsterKo::spec_encode(m, data), "monster"@) == Some(u32::spec_into_value(m.monster)),
{
    broadcast use crate::value::law_get_after_set, crate::value::lemma_set_is_map;

    reveal_strlit("type");
    reveal_strlit("id");
    reveal_strlit("monster");
    assert("type"@.len() != "id"@.len());
    assert("type"@.len() != "monster"@.len());
    assert("id"@.len() != "monster"@.len());
}

} // verus!
