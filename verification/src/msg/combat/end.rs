//! The end of a combat.
use vstd::prelude::*;
use crate::convert::{IntoValue, str_value};
use crate::error::{Error, ErrorView};
use crate::fields::{self, spec_field};
use crate::msg::{MessageFull, MessageHeader, MessagePart};
use crate::value::{SpecValue, Value, empty_map, spec_set, spec_get};
pub use super::data::end::stats::Stats;
use super::data::end::stats::law_stats_roundtrip;

verus! {

/// The end of a combat, with its outcome and the stats it leaves.
#[derive(Debug, Clone)]
pub struct End {
    pub header: MessageHeader,
    pub status: String,
    pub stats: Stats,
    pub combat: u32,
}

/// The model of a [`End`].
pub struct EndView {
    pub header: Option<Seq<char>>,
    pub status: Seq<char>,
    pub stats: <Stats as DeepView>::V,
    pub combat: u32,
}

impl DeepView for End {
    type V = EndView;

    open spec fn deep_view(&self) -> EndView {
        EndView {
            header: self.header.deep_view(),
            status: self.status@,
            stats: self.stats.deep_view(),
            combat: self.combat,
        }
    }
}

impl MessagePart for End {
    open spec fn spec_decode(data: SpecValue) -> Result<EndView, ErrorView> {
        match MessageHeader::spec_decode(data) {
            Err(e) => Err(e),
            Ok(header) => match spec_field::<String>(data, "status"@) {
                Err(e) => Err(e),
                Ok(status) => match spec_field::<Stats>(data, "stats"@) {
                    Err(e) => Err(e),
                    Ok(stats) => match spec_field::<u32>(data, "combat"@) {
                        Err(e) => Err(e),
                        Ok(combat) => Ok(EndView { header, status, stats, combat }),
                    },
                },
            },
        }
    }

    open spec fn spec_encode(m: EndView, data: SpecValue) -> SpecValue {
        let d = data;
        let d = spec_set(d, "type"@, SpecValue::String("combat:end"@));
        let d = MessageHeader::spec_encode(m.header, d);
        let d = spec_set(d, "status"@, String::spec_into_value(m.status));
        let d = spec_set(d, "stats"@, Stats::spec_encode(m.stats, empty_map()));
        let d = spec_set(d, "combat"@, u32::spec_into_value(m.combat));
        d
    }

    fn decode(data: &Value) -> (r: Result<End, Error>) {
        let header = MessageHeader::decode(data)?;
        let status = fields::get::<String>(data, "status")?;
        let stats = fields::get::<Stats>(data, "stats")?;
        let combat = fields::get::<u32>(data, "combat")?;
        Ok(End { header, status, stats, combat })
    }

    fn encode(&self, data: &mut Value) {
        data.set("type", str_value("combat:end"));
        self.header.encode(data);
        data.set("status", self.status.clone().into_value());
        data.set("stats", self.stats.value());
        data.set("combat", self.combat.into_value());
    }
}

impl MessageFull for End {
    open spec fn spec_header(&self) -> MessageHeader {
        self.header
    }

    open spec fn spec_with_header(&self, h: MessageHeader) -> End {
        End { header: h, ..*self }
    }

    fn header(&self) -> (r: &MessageHeader) {
        &self.header
    }

    fn header_mut(&mut self) -> (r: &mut MessageHeader) {
        &mut self.header
    }
}

/// Decoding what a end notice encodes into an empty map gives it back.
pub proof fn law_end_roundtrip(m: EndView)
    ensures
        End::spec_decode(End::spec_encode(m, empty_map())) == Ok::<EndView, ErrorView>(m),
        spec_get(End::spec_encode(m, empty_map()), "type"@) == Some(SpecValue::String("combat:end"@)),
{
    broadcast use crate::value::law_get_after_set, crate::value::lemma_set_is_map;

    reveal_strlit("type");
    reveal_strlit("id");
    reveal_strlit("status");
    reveal_strlit("stats");
    reveal_strlit("combat");
    assert("type"@.len() != "id"@.len());
    assert("type"@.len() != "status"@.len());
    assert("type"@.len() != "stats"@.len());
    assert("type"@.len() != "combat"@.len());
    assert("id"@.len() != "status"@.len());
    assert("id"@.len() != "stats"@.len());
    assert("id"@.len() != "combat"@.len());
    assert("status"@.len() != "stats"@.len());
    assert("status"@[0] == 's' && "combat"@[0] == 'c');
    assert("stats"@.len() != "combat"@.len());
    law_stats_roundtrip(m.stats);
}

/// Decoding reads each field from the key of its name: whatever map it
/// succeeds on, each field of the result holds what its key reads as.
pub proof fn law_end_reads_fields(data: SpecValue)
    ensures
        End::spec_decode(data) matches Ok(m) ==> {
            &&& (MessageHeader::spec_decode(data) matches Ok(v) && v == m.header)
            &&& (spec_field::<String>(data, "status"@) matches Ok(v) && v == m.status)
            &&& (spec_field::<Stats>(data, "stats"@) matches Ok(v) && v == m.stats)
            &&& (spec_field::<u32>(data, "combat"@) matches Ok(v) && v == m.combat)
        },
{
}

/// Encoding writes each field under the key of its name, into any map.
pub proof fn law_end_writes_fields(m: EndView, data: SpecValue)
    requires
        data is Mapping,
    ensures
        spec_get(End::spec_encode(m, data), "type"@) == Some(SpecValue::String("combat:end"@)),
        spec_get(End::spec_encode(m, data), "id"@) == Some(Option::<String>::spec_into_value(m.header)),
        spec_get(End::spec_encode(m, data), "status"@) == Some(String::spec_into_value(m.status)),
        spec_get(End::spec_encode(m, data), "stats"@) == Some(Stats::spec_encode(m.stats, empty_map())),
        spec_get(End::spec_encode(m, data), "combat"@) == Some(u32::spec_into_value(m.combat)),
{
    broadcast use crate::value::law_get_after_set, crate::value::lemma_set_is_map;

    reveal_strlit("type");
    reveal_strlit("id");
    reveal_strlit("status");
    reveal_strlit("stats");
    reveal_strlit("combat");
    assert("type"@.len() != "id"@.len());
    assert("type"@.len() != "status"@.len());
    assert("type"@.len() != "stats"@.len());
    assert("type"@.len() != "combat"@.len());
    assert("id"@.len() != "status"@.len());
    assert("id"@.len() != "stats"@.len());
    assert("id"@.len() != "combat"@.len());
    assert("status"@.len() != "stats"@.len());
    assert("status"@[0] == 's' && "combat"@[0] == 'c');
    assert("stats"@.len() != "combat"@.len());
}

} // verus!
