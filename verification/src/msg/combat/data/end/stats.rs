//! What a combat leaves a monster with.
use vstd::prelude::*;
use crate::convert::{FromValue, IntoValue};
use crate::error::{Error, ErrorView};
use crate::fields::{self, spec_field};
use crate::msg::{MessagePart};
use crate::value::{SpecValue, Value, empty_map, spec_set, spec_get};

verus! {

/// The experience and level of a monster when a combat ends.
#[derive(Debug, Clone)]
pub struct Stats {
    pub id: u32,
    pub exp: u32,
    pub level: u8,
}

/// The model of a [`Stats`].
pub struct StatsView {
    pub id: u32,
    pub exp: u32,
    pub level: u8,
}

impl DeepView for Stats {
    type V = StatsView;

    open spec fn deep_view(&self) -> StatsView {
        StatsView {
            id: self.id,
            exp: self.exp,
            level: self.level,
        }
    }
}

impl MessagePart for Stats {
    open spec fn spec_decode(data: SpecValue) -> Result<StatsView, ErrorView> {
        match spec_field::<u32>(data, "id"@) {
            Err(e) => Err(e),
            Ok(id) => match spec_field::<u32>(data, "exp"@) {
                Err(e) => Err(e),
                Ok(exp) => match spec_field::<u8>(data, "level"@) {
                    Err(e) => Err(e),
                    Ok(level) => Ok(StatsView { id, exp, level }),
                },
            },
        }
    }

    open spec fn spec_encode(m: StatsView, data: SpecValue) -> SpecValue {
        let d = data;
        let d = spec_set(d, "id"@, u32::spec_into_value(m.id));
        let d = spec_set(d, "exp"@, u32::spec_into_value(m.exp));
        let d = spec_set(d, "level"@, u8::spec_into_value(m.level));
        d
    }

    fn decode(data: &Value) -> (r: Result<Stats, Error>) {
        let id = fields::get::<u32>(data, "id")?;
        let exp = fields::get::<u32>(data, "exp")?;
        let level = fields::get::<u8>(data, "level")?;
        Ok(Stats { id, exp, level })
    }

    fn encode(&self, data: &mut Value) {
        data.set("id", self.id.into_value());
        data.set("exp", self.exp.into_value());
        data.set("level", self.level.into_value());
    }
}

impl FromValue for Stats {
    /// What decodes as a stats.
    open spec fn spec_from_value(v: SpecValue) -> Option<StatsView> {
        match Self::spec_decode(v) {
            Ok(m) => Some(m),
            Err(_) => None,
        }
    }

    fn from_value(value: &Value) -> (r: Option<Stats>) {
        match Self::decode(value) {
            Ok(m) => Some(m),
            Err(_) => None,
        }
    }
}

/// Decoding what a stats record encodes into an empty map gives it back.
pub proof fn law_stats_roundtrip(m: StatsView)
    ensures
        Stats::spec_decode(Stats::spec_encode(m, empty_map())) == Ok::<StatsView, ErrorView>(m),
{
    broadcast use crate::value::law_get_after_set, crate::value::lemma_set_is_map;

    reveal_strlit("id");
    reveal_strlit("exp");
    reveal_strlit("level");
    assert("id"@.len() != "exp"@.len());
    assert("id"@.len() != "level"@.len());
    assert("exp"@.len() != "level"@.len());
}

/// Decoding reads each field from the key of its name: whatever map it
/// succeeds on, each field of the result holds what its key reads as.
pub proof fn law_stats_reads_fields(data: SpecValue)
    ensures
        Stats::spec_decode(data) matches Ok(m) ==> {
            &&& (spec_field::<u32>(data, "id"@) matches Ok(v) && v == m.id)
            &&& (spec_field::<u32>(data, "exp"@) matches Ok(v) && v == m.exp)
            &&& (spec_field::<u8>(data, "level"@) matches Ok(v) && v == m.level)
        },
{
}

/// Encoding writes each field under the key of its name, into any map.
pub proof fn law_stats_writes_fields(m: StatsView, data: SpecValue)
    requires
        data is Mapping,
    ensures
        spec_get(Stats::spec_encode(m, data), "id"@) == Some(u32::spec_into_value(m.id)),
        spec_get(Stats::spec_encode(m, data), "exp"@) == Some(u32::spec_into_value(m.exp)),
        spec_get(Stats::spec_encode(m, data), "level"@) == Some(u8::spec_into_value(m.level)),
{
    broadcast use crate::value::law_get_after_set, crate::value::lemma_set_is_map;

    reveal_strlit("id");
    reveal_strlit("exp");
    reveal_strlit("level");
    assert("id"@.len() != "exp"@.len());
    assert("id"@.len() != "level"@.len());
    assert("exp"@.len() != "level"@.len());
}

} // verus!
