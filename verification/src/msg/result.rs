//! Results: the answer to a request, success or error.
use vstd::prelude::*;
use vstd::string::StringExecFns;
use crate::convert::{IntoValue, str_value};
use crate::error::{Error, ErrorView};
use crate::fields::{self, spec_field};
use crate::msg::{MessageFull, MessageHeader, MessagePart};
use crate::value::{
    SpecValue, Value, empty_map, is_key, lemma_find_key_first, lemma_read_and_remove_sole_key,
    lemma_get_extend, lemma_set_new_key, spec_extend, spec_remove, spec_set, spec_get,
};

verus! {

/// The answer to a request. (Named with a `Message` suffix so as not to clash
/// with Rust's `Result`.)
#[derive(Debug, Clone)]
pub struct ResultMessage {
    pub header: MessageHeader,
    pub data: ResultData,
}

/// What a result says: success with some data, or an error of some kind, with
/// a message and some data.
#[derive(Debug, Clone)]
pub enum ResultData {
    Success(Value),
    Error { kind: String, message: String, data: Value },
}

/// The model of a [`ResultData`].
pub enum ResultDataView {
    Success(SpecValue),
    Error { kind: Seq<char>, message: Seq<char>, data: SpecValue },
}

/// The model of a [`ResultMessage`].
pub struct ResultMessageView {
    pub header: Option<Seq<char>>,
    pub data: ResultDataView,
}

impl DeepView for ResultData {
    type V = ResultDataView;

    open spec fn deep_view(&self) -> ResultDataView {
        match self {
            ResultData::Success(v) => ResultDataView::Success(v@),
            ResultData::Error { kind, message, data } => ResultDataView::Error {
                kind: kind@,
                message: message@,
                data: data@,
            },
        }
    }
}

impl DeepView for ResultMessage {
    type V = ResultMessageView;

    open spec fn deep_view(&self) -> ResultMessageView {
        ResultMessageView { header: self.header.deep_view(), data: self.data.deep_view() }
    }
}

/// The model of an error of kind `kind` with `message` and no data.
pub open spec fn error_view(kind: Seq<char>, message: Seq<char>) -> ResultDataView {
    ResultDataView::Error { kind, message, data: empty_map() }
}

/// `data`, or an empty map when there is none.
pub open spec fn data_or_empty(data: Option<SpecValue>) -> SpecValue {
    match data {
        Some(v) => v,
        None => empty_map(),
    }
}

impl ResultData {
    /// A success carrying `data`, or an empty map.
    pub fn ok(data: Option<Value>) -> (r: ResultData)
        ensures
            r.deep_view() == ResultDataView::Success(data_or_empty(data.deep_view())),
    {
        match data {
            Some(v) => ResultData::Success(v),
            None => ResultData::Success(new_map()),
        }
    }

    /// An error of kind `kind` with `message`, carrying `data`, or an empty map.
    pub fn err(kind: &str, message: &str, data: Option<Value>) -> (r: ResultData)
        ensures
            r.deep_view() == (ResultDataView::Error {
                kind: kind@,
                message: message@,
                data: data_or_empty(data.deep_view()),
            }),
    {
        let data = match data {
            Some(v) => v,
            None => new_map(),
        };
        ResultData::Error { kind: String::from_str(kind), message: String::from_str(message), data }
    }
}

/// An empty map.
pub fn new_map() -> (r: Value)
    ensures
        r@ == empty_map(),
{
    let r = Value::Mapping(Vec::new());
    proof {
        crate::value::lemma_mapping_view(r->Mapping_0);
        assert(crate::value::pairs_view(r->Mapping_0@) =~= Seq::empty());
    }
    r
}

/// The message for an unknown result kind `result`.
pub open spec fn bad_result_text(result: Seq<char>) -> Seq<char> {
    "Bad result type `"@ + result + "`, should be `success` or `error`"@
}

/// `data` without its `id`, `type` and `result` fields.
pub open spec fn without_envelope(data: SpecValue) -> SpecValue {
    spec_remove(spec_remove(spec_remove(data, "id"@).0, "type"@).0, "result"@).0
}

impl MessagePart for ResultMessage {
    /// The header, then `result`; what remains of the map once `id`, `type`
    /// and `result` (and, for an error, `kind` and `message`) are taken out is
    /// the data.
    open spec fn spec_decode(data: SpecValue) -> Result<ResultMessageView, ErrorView> {
        match MessageHeader::spec_decode(data) {
            Err(e) => Err(e),
            Ok(header) => match spec_field::<String>(data, "result"@) {
                Err(e) => Err(e),
                Ok(result) => {
                    let rest = without_envelope(data);
                    if result == "success"@ {
                        Ok(ResultMessageView { header, data: ResultDataView::Success(rest) })
                    } else if result == "error"@ {
                        match spec_field::<String>(rest, "kind"@) {
                            Err(e) => Err(e),
                            Ok(kind) => match spec_field::<String>(rest, "message"@) {
                                Err(e) => Err(e),
                                Ok(message) => Ok(
                                    ResultMessageView {
                                        header,
                                        data: ResultDataView::Error {
                                            kind,
                                            message,
                                            data: spec_remove(spec_remove(rest, "kind"@).0, "message"@).0,
                                        },
                                    },
                                ),
                            },
                        }
                    } else {
                        Err(ErrorView::InvalidField("result"@, bad_result_text(result)))
                    }
                },
            },
        }
    }

    /// The `type`, the header and the `result` kind (with, for an error, its
    /// `kind` and `message`), then the pairs of the data.
    open spec fn spec_encode(m: ResultMessageView, data: SpecValue) -> SpecValue {
        let d = spec_set(data, "type"@, SpecValue::String("result"@));
        let d = MessageHeader::spec_encode(m.header, d);
        match m.data {
            ResultDataView::Success(r) => spec_extend(
                spec_set(d, "result"@, SpecValue::String("success"@)),
                r,
            ),
            ResultDataView::Error { kind, message, data: r } => {
                let d = spec_set(d, "result"@, SpecValue::String("error"@));
                let d = spec_set(d, "kind"@, SpecValue::String(kind));
                let d = spec_set(d, "message"@, SpecValue::String(message));
                spec_extend(d, r)
            },
        }
    }

    fn decode(data: &Value) -> (r: Result<ResultMessage, Error>) {
        let header = MessageHeader::decode(data)?;
        let result = fields::get::<String>(data, "result")?;
        let mut data = data.clone_value();
        data.remove("id");
        data.remove("type");
        data.remove("result");
        let data = if result == String::from_str("success") {
            ResultData::Success(data)
        } else if result == String::from_str("error") {
            let kind = fields::get::<String>(&data, "kind")?;
            let message = fields::get::<String>(&data, "message")?;
            data.remove("kind");
            data.remove("message");
            ResultData::Error { kind, message, data }
        } else {
            let msg = String::from_str("Bad result type `").concat(result.as_str()).concat(
                "`, should be `success` or `error`",
            );
            return Err(Error::InvalidField("result", msg));
        };
        Ok(ResultMessage { header, data })
    }

    fn encode(&self, data: &mut Value) {
        data.set("type", str_value("result"));
        self.header.encode(data);
        match &self.data {
            ResultData::Success(r_data) => {
                data.set("result", str_value("success"));
                data.extend(r_data);
            },
            ResultData::Error { kind, message, data: r_data } => {
                data.set("result", str_value("error"));
                data.set("kind", Value::String(kind.clone()));
                data.set("message", Value::String(message.clone()));
                data.extend(r_data);
            },
        }
    }
}

impl MessageFull for ResultMessage {
    open spec fn spec_header(&self) -> MessageHeader {
        self.header
    }

    open spec fn spec_with_header(&self, h: MessageHeader) -> ResultMessage {
        ResultMessage { header: h, ..*self }
    }

    fn header(&self) -> (r: &MessageHeader) {
        &self.header
    }

    fn header_mut(&mut self) -> (r: &mut MessageHeader) {
        &mut self.header
    }
}

/// Decoding what a result with empty data encodes into an empty map gives it
/// back.
pub proof fn law_result_roundtrip(m: ResultMessageView)
    requires
        m.data matches ResultDataView::Success(r) ==> r == empty_map(),
        m.data matches ResultDataView::Error { data: r, .. } ==> r == empty_map(),
    ensures
        ResultMessage::spec_decode(ResultMessage::spec_encode(m, empty_map())) == Ok::<ResultMessageView, ErrorView>(m),
        spec_get(ResultMessage::spec_encode(m, empty_map()), "type"@) == Some(SpecValue::String("result"@)),
{
    broadcast use crate::value::law_get_after_set, crate::value::lemma_set_is_map;

    reveal_strlit("type");
    reveal_strlit("id");
    reveal_strlit("result");
    reveal_strlit("kind");
    reveal_strlit("message");
    reveal_strlit("success");
    reveal_strlit("error");
    assert("type"@.len() != "id"@.len());
    assert("type"@.len() != "result"@.len());
    assert("type"@[0] == 't' && "kind"@[0] == 'k');
    assert("type"@.len() != "message"@.len());
    assert("id"@.len() != "result"@.len());
    assert("id"@.len() != "kind"@.len());
    assert("id"@.len() != "message"@.len());
    assert("result"@.len() != "kind"@.len());
    assert("result"@.len() != "message"@.len());
    assert("kind"@.len() != "message"@.len());
    assert("success"@.len() != "error"@.len());
    let header_v = Option::<String>::spec_into_value(m.header);
    let t = (SpecValue::String("type"@), SpecValue::String("result"@));
    let i = (SpecValue::String("id"@), header_v);
    let e0: Seq<(SpecValue, SpecValue)> = Seq::empty();
    lemma_set_new_key(e0, "type"@, t.1);
    assert(e0.push(t) =~= seq![t]);
    lemma_set_new_key(seq![t], "id"@, header_v);
    assert(seq![t].push(i) =~= seq![t, i]);
    match m.data {
        ResultDataView::Success(r) => {
            let res = (SpecValue::String("result"@), SpecValue::String("success"@));
            lemma_set_new_key(seq![t, i], "result"@, res.1);
            assert(seq![t, i].push(res) =~= seq![t, i, res]);
            let d = SpecValue::Mapping(seq![t, i, res]);
            assert(spec_extend(d, r) == d) by {
                assert(seq![t, i, res] + Seq::empty() =~= seq![t, i, res]);
            }
            lemma_find_key_first(seq![t, i, res], "id"@, 1);
            let d1 = spec_remove(d, "id"@).0;
            assert(d1->Mapping_0 =~= seq![t, res]);
            lemma_find_key_first(seq![t, res], "type"@, 0);
            let d2 = spec_remove(d1, "type"@).0;
            assert(d2->Mapping_0 =~= seq![res]);
            lemma_find_key_first(seq![res], "result"@, 0);
            assert(without_envelope(d)->Mapping_0 =~= Seq::empty());
        },
        ResultDataView::Error { kind, message, data: r } => {
            let res = (SpecValue::String("result"@), SpecValue::String("error"@));
            let k = (SpecValue::String("kind"@), SpecValue::String(kind));
            let g = (SpecValue::String("message"@), SpecValue::String(message));
            lemma_set_new_key(seq![t, i], "result"@, res.1);
            assert(seq![t, i].push(res) =~= seq![t, i, res]);
            lemma_set_new_key(seq![t, i, res], "kind"@, k.1);
            assert(seq![t, i, res].push(k) =~= seq![t, i, res, k]);
            lemma_set_new_key(seq![t, i, res, k], "message"@, g.1);
            assert(seq![t, i, res, k].push(g) =~= seq![t, i, res, k, g]);
            let d = SpecValue::Mapping(seq![t, i, res, k, g]);
            assert(spec_extend(d, r) == d) by {
                assert(seq![t, i, res, k, g] + Seq::empty() =~= seq![t, i, res, k, g]);
            }
            lemma_find_key_first(seq![t, i, res, k, g], "id"@, 1);
            let d1 = spec_remove(d, "id"@).0;
            assert(d1->Mapping_0 =~= seq![t, g, res, k]);
            lemma_find_key_first(seq![t, g, res, k], "type"@, 0);
            let d2 = spec_remove(d1, "type"@).0;
            assert(d2->Mapping_0 =~= seq![k, g, res]);
            lemma_find_key_first(seq![k, g, res], "result"@, 2);
            let rest = without_envelope(d);
            assert(rest->Mapping_0 =~= seq![k, g]);
            lemma_find_key_first(seq![k, g], "kind"@, 0);
            lemma_find_key_first(seq![k, g], "message"@, 1);
            let r1 = spec_remove(rest, "kind"@).0;
            assert(r1->Mapping_0 =~= seq![g]);
            lemma_find_key_first(seq![g], "message"@, 0);
            assert(spec_remove(r1, "message"@).0->Mapping_0 =~= Seq::empty());
        },
    }
}


/// The data that a result carries.
pub open spec fn result_data(d: ResultDataView) -> SpecValue {
    match d {
        ResultDataView::Success(v) => v,
        ResultDataView::Error { data, .. } => data,
    }
}

/// A key that the envelope of the result `d` uses: `id`, `type` and
/// `result`, and for an error also `kind` and `message`.
pub open spec fn is_envelope_key(d: ResultDataView, k: SpecValue) -> bool {
    ||| is_key(k, "id"@)
    ||| is_key(k, "type"@)
    ||| is_key(k, "result"@)
    ||| (d is Error && is_key(k, "kind"@))
    ||| (d is Error && is_key(k, "message"@))
}

/// Adding the pairs of `e` to those of an empty list gives those of `e`.
proof fn lemma_add_to_nothing(e: Seq<(SpecValue, SpecValue)>)
    ensures
        Seq::<(SpecValue, SpecValue)>::empty().to_multiset().add(e.to_multiset()) == e.to_multiset(),
{
    broadcast use vstd::multiset::group_multiset_axioms;

    let z = Seq::<(SpecValue, SpecValue)>::empty();
    assert forall|x: (SpecValue, SpecValue)| #[trigger] z.to_multiset().count(x) == 0 by {
        vstd::seq_lib::to_multiset_contains(z, x);
    }
    assert(z.to_multiset().add(e.to_multiset()) =~= e.to_multiset());
}

/// A result comes back from the map it encodes into with its header, its
/// outcome (and an error's kind and message) and the pairs of its data, when
/// the data is a map that uses no envelope key. The pairs may come back in
/// another order: each envelope field is taken out by moving the last pair
/// into its place.
pub proof fn law_result_pairs_roundtrip(m: ResultMessageView)
    requires
        result_data(m.data) is Mapping,
        forall|a: int|
            0 <= a < result_data(m.data)->Mapping_0.len() ==> !is_envelope_key(
                m.data,
                #[trigger] result_data(m.data)->Mapping_0[a].0,
            ),
    ensures
        ResultMessage::spec_decode(ResultMessage::spec_encode(m, empty_map())) matches Ok(r) && {
            &&& r.header == m.header
            &&& (m.data is Success <==> r.data is Success)
            &&& (m.data matches ResultDataView::Error { kind, message, .. } ==> (r.data matches ResultDataView::Error {
                kind: k2,
                message: m2,
                ..
            } && k2 == kind && m2 == message))
            &&& result_data(r.data) is Mapping
            &&& result_data(r.data)->Mapping_0.to_multiset() == result_data(
                m.data,
            )->Mapping_0.to_multiset()
        },
{
    broadcast use vstd::multiset::group_multiset_axioms;

    reveal_strlit("type");
    reveal_strlit("id");
    reveal_strlit("result");
    reveal_strlit("kind");
    reveal_strlit("message");
    reveal_strlit("success");
    reveal_strlit("error");
    assert("type"@.len() != "id"@.len());
    assert("type"@.len() != "result"@.len());
    assert("type"@[0] == 't' && "kind"@[0] == 'k');
    assert("type"@.len() != "message"@.len());
    assert("id"@.len() != "result"@.len());
    assert("id"@.len() != "kind"@.len());
    assert("id"@.len() != "message"@.len());
    assert("result"@.len() != "kind"@.len());
    assert("result"@.len() != "message"@.len());
    assert("kind"@.len() != "message"@.len());
    assert("success"@.len() != "error"@.len());
    let e = result_data(m.data)->Mapping_0;
    let header_v = Option::<String>::spec_into_value(m.header);
    let t = (SpecValue::String("type"@), SpecValue::String("result"@));
    let i = (SpecValue::String("id"@), header_v);
    let e0: Seq<(SpecValue, SpecValue)> = Seq::empty();
    lemma_set_new_key(e0, "type"@, t.1);
    assert(e0.push(t) =~= seq![t]);
    lemma_set_new_key(seq![t], "id"@, header_v);
    assert(seq![t].push(i) =~= seq![t, i]);
    match m.data {
        ResultDataView::Success(r) => {
            let res = (SpecValue::String("result"@), SpecValue::String("success"@));
            lemma_set_new_key(seq![t, i], "result"@, res.1);
            assert(seq![t, i].push(res) =~= seq![t, i, res]);
            let env = seq![t, i, res];
            let s0 = env + e;
            vstd::seq_lib::lemma_multiset_commutative(env, e);
            lemma_read_and_remove_sole_key(s0, env, e, 1, "id"@);
            lemma_read_and_remove_sole_key(s0, env, e, 2, "result"@);
            let d1 = spec_remove(SpecValue::Mapping(s0), "id"@).0;
            assert(env.remove(1) =~= seq![t, res]);
            lemma_read_and_remove_sole_key(d1->Mapping_0, seq![t, res], e, 0, "type"@);
            let d2 = spec_remove(d1, "type"@).0;
            assert(seq![t, res].remove(0) =~= seq![res]);
            lemma_read_and_remove_sole_key(d2->Mapping_0, seq![res], e, 0, "result"@);
            assert(seq![res].remove(0) =~= Seq::<(SpecValue, SpecValue)>::empty());
            lemma_add_to_nothing(e);
        },
        ResultDataView::Error { kind, message, data: r } => {
            let res = (SpecValue::String("result"@), SpecValue::String("error"@));
            let k = (SpecValue::String("kind"@), SpecValue::String(kind));
            let g = (SpecValue::String("message"@), SpecValue::String(message));
            lemma_set_new_key(seq![t, i], "result"@, res.1);
            assert(seq![t, i].push(res) =~= seq![t, i, res]);
            lemma_set_new_key(seq![t, i, res], "kind"@, k.1);
            assert(seq![t, i, res].push(k) =~= seq![t, i, res, k]);
            lemma_set_new_key(seq![t, i, res, k], "message"@, g.1);
            assert(seq![t, i, res, k].push(g) =~= seq![t, i, res, k, g]);
            let env = seq![t, i, res, k, g];
            let s0 = env + e;
            vstd::seq_lib::lemma_multiset_commutative(env, e);
            lemma_read_and_remove_sole_key(s0, env, e, 1, "id"@);
            lemma_read_and_remove_sole_key(s0, env, e, 2, "result"@);
            let d1 = spec_remove(SpecValue::Mapping(s0), "id"@).0;
            assert(env.remove(1) =~= seq![t, res, k, g]);
            lemma_read_and_remove_sole_key(d1->Mapping_0, seq![t, res, k, g], e, 0, "type"@);
            let d2 = spec_remove(d1, "type"@).0;
            assert(seq![t, res, k, g].remove(0) =~= seq![res, k, g]);
            lemma_read_and_remove_sole_key(d2->Mapping_0, seq![res, k, g], e, 0, "result"@);
            let rest = spec_remove(d2, "result"@).0;
            assert(seq![res, k, g].remove(0) =~= seq![k, g]);
            lemma_read_and_remove_sole_key(rest->Mapping_0, seq![k, g], e, 0, "kind"@);
            lemma_read_and_remove_sole_key(rest->Mapping_0, seq![k, g], e, 1, "message"@);
            let r1 = spec_remove(rest, "kind"@).0;
            assert(seq![k, g].remove(0) =~= seq![g]);
            lemma_read_and_remove_sole_key(r1->Mapping_0, seq![g], e, 0, "message"@);
            assert(seq![g].remove(0) =~= Seq::<(SpecValue, SpecValue)>::empty());
            lemma_add_to_nothing(e);
        },
    }
}

/// Decoding a result reads its header from `id` and its outcome from
/// `result`; an error's kind and message are read from `kind` and `message`
/// of what remains once the envelope is taken out.
pub proof fn law_result_reads_fields(data: SpecValue)
    ensures
        ResultMessage::spec_decode(data) matches Ok(r) ==> {
            &&& (MessageHeader::spec_decode(data) matches Ok(v) && v == r.header)
            &&& (r.data is Success ==> spec_field::<String>(data, "result"@) == Ok::<Seq<char>, ErrorView>(
                "success"@,
            ))
            &&& (r.data matches ResultDataView::Error { kind, message, .. } ==> {
                &&& spec_field::<String>(data, "result"@) == Ok::<Seq<char>, ErrorView>("error"@)
                &&& spec_field::<String>(without_envelope(data), "kind"@) == Ok::<Seq<char>, ErrorView>(kind)
                &&& spec_field::<String>(without_envelope(data), "message"@) == Ok::<Seq<char>, ErrorView>(
                    message,
                )
            })
        },
{
}

/// Encoding a result writes its tag, its header, its outcome and, for an
/// error, its kind and message under their keys, into any map; the pairs of
/// the data come after them.
pub proof fn law_result_writes_fields(m: ResultMessageView, data: SpecValue)
    requires
        data is Mapping,
    ensures
        spec_get(ResultMessage::spec_encode(m, data), "type"@) == Some(SpecValue::String("result"@)),
        spec_get(ResultMessage::spec_encode(m, data), "id"@) == Some(Option::<String>::spec_into_value(m.header)),
        m.data is Success ==> spec_get(ResultMessage::spec_encode(m, data), "result"@) == Some(
            SpecValue::String("success"@),
        ),
        m.data matches ResultDataView::Error { kind, message, .. } ==> {
            &&& spec_get(ResultMessage::spec_encode(m, data), "result"@) == Some(SpecValue::String("error"@))
            &&& spec_get(ResultMessage::spec_encode(m, data), "kind"@) == Some(SpecValue::String(kind))
            &&& spec_get(ResultMessage::spec_encode(m, data), "message"@) == Some(SpecValue::String(message))
        },
{
    broadcast use crate::value::law_get_after_set, crate::value::lemma_set_is_map;

    reveal_strlit("type");
    reveal_strlit("id");
    reveal_strlit("result");
    reveal_strlit("kind");
    reveal_strlit("message");
    assert("type"@.len() != "id"@.len());
    assert("type"@.len() != "result"@.len());
    assert("type"@[0] == 't' && "kind"@[0] == 'k');
    assert("type"@.len() != "message"@.len());
    assert("id"@.len() != "result"@.len());
    assert("id"@.len() != "kind"@.len());
    assert("id"@.len() != "message"@.len());
    assert("result"@.len() != "kind"@.len());
    assert("result"@.len() != "message"@.len());
    assert("kind"@.len() != "message"@.len());
    let d = spec_set(data, "type"@, SpecValue::String("result"@));
    let d = MessageHeader::spec_encode(m.header, d);
    match m.data {
        ResultDataView::Success(r) => {
            let d = spec_set(d, "result"@, SpecValue::String("success"@));
            lemma_get_extend(d, r, "type"@);
            lemma_get_extend(d, r, "id"@);
            lemma_get_extend(d, r, "result"@);
        },
        ResultDataView::Error { kind, message, data: r } => {
            let d = spec_set(d, "result"@, SpecValue::String("error"@));
            let d = spec_set(d, "kind"@, SpecValue::String(kind));
            let d = spec_set(d, "message"@, SpecValue::String(message));
            lemma_get_extend(d, r, "type"@);
            lemma_get_extend(d, r, "id"@);
            lemma_get_extend(d, r, "result"@);
            lemma_get_extend(d, r, "kind"@);
            lemma_get_extend(d, r, "message"@);
        },
    }
}

} // verus!
