//! Answering requests.

use vstd::prelude::*;
use crate::monitor::{QueryError, QueryRequest, query_info, spec_query_info};
use crate::monitor::model::Model;
use crate::monitor::process::ProcessSnapshot;
use crate::util::data_container::{DataContainer, DataValue, Float64, InfoMap};
use crate::util::decimal::{decimal_text, format_i64};
use crate::web::model::{ItemView, JsonNumber, JsonValue, PayloadItem, Request, Response, ResponseError, item_view, payload_view};
use crate::web::{Command, INTERNAL_ERROR_STATE, NOT_FOUND_STATE, PARTIAL_SUCCESS_STATE, SUCCESS_STATE};

verus! {

/// The message that refuses an integer parameter that does not fit 32 bits.
pub open spec fn out_of_range_message(v: int) -> Seq<char> {
    "integer parameter out of range: "@ + decimal_text(v)
}

/// A JSON number as a value: an integer that fits 32 bits becomes an `Int`,
/// a larger non-negative one an `UnsignedLong`, a float a `Float`; a negative
/// integer, or one of at most `i64::MAX`, that does not fit 32 bits is
/// refused.
pub open spec fn json_number_to_data(n: JsonNumber) -> Result<DataValue, Seq<char>> {
    match n {
        JsonNumber::PosInt(u) => if u <= i64::MAX {
            if u <= i32::MAX {
                Ok(DataValue::Int(u as i32))
            } else {
                Err(out_of_range_message(u as int))
            }
        } else {
            Ok(DataValue::UnsignedLong(u))
        },
        JsonNumber::NegInt(i) => if i32::MIN <= i <= i32::MAX {
            Ok(DataValue::Int(i as i32))
        } else {
            Err(out_of_range_message(i as int))
        },
        JsonNumber::Float(f) => Ok(DataValue::Float(f.bits)),
    }
}

/// A JSON value as a value; a list or object is refused with the first
/// member, in order, that is refused.
pub open spec fn json_to_data(v: JsonValue) -> Result<DataValue, Seq<char>>
    decreases v,
{
    match v {
        JsonValue::Null => Ok(DataValue::Null),
        JsonValue::Bool(b) => Ok(DataValue::Boolean(b)),
        JsonValue::Number(n) => json_number_to_data(n),
        JsonValue::String(s) => Ok(DataValue::Text(s@)),
        JsonValue::Array(items) => match json_list_to_data(items@) {
            Ok(vs) => Ok(DataValue::Array(vs)),
            Err(e) => Err(e),
        },
        JsonValue::Object(members) => match json_members_to_data(members@) {
            Ok(ms) => Ok(DataValue::Object(ms)),
            Err(e) => Err(e),
        },
    }
}

/// A list of JSON values as values, or the first refusal.
pub open spec fn json_list_to_data(s: Seq<JsonValue>) -> Result<Seq<DataValue>, Seq<char>>
    decreases s,
{
    if s.len() == 0 {
        Ok(Seq::empty())
    } else {
        match json_list_to_data(s.drop_last()) {
            Err(e) => Err(e),
            Ok(vs) => match json_to_data(s.last()) {
                Ok(x) => Ok(vs.push(x)),
                Err(e) => Err(e),
            },
        }
    }
}

/// The members of a JSON object as named values, or the first refusal.
pub open spec fn json_members_to_data(s: Seq<(String, JsonValue)>) -> Result<Seq<(Seq<char>, DataValue)>, Seq<char>>
    decreases s,
{
    if s.len() == 0 {
        Ok(Seq::empty())
    } else {
        match json_members_to_data(s.drop_last()) {
            Err(e) => Err(e),
            Ok(ms) => match json_to_data(s.last().1) {
                Ok(x) => Ok(ms.push((s.last().0@, x))),
                Err(e) => Err(e),
            },
        }
    }
}

proof fn lemma_list_prefix_error(s: Seq<JsonValue>, k: int)
    requires
        0 <= k <= s.len(),
        json_list_to_data(s.take(k)) is Err,
    ensures
        json_list_to_data(s) == json_list_to_data(s.take(k)),
    decreases s.len() - k,
{
    if k < s.len() {
        assert(s.take(k + 1).drop_last() =~= s.take(k));
        lemma_list_prefix_error(s, k + 1);
    } else {
        assert(s.take(k) =~= s);
    }
}

proof fn lemma_members_prefix_error(s: Seq<(String, JsonValue)>, k: int)
    requires
        0 <= k <= s.len(),
        json_members_to_data(s.take(k)) is Err,
    ensures
        json_members_to_data(s) == json_members_to_data(s.take(k)),
    decreases s.len() - k,
{
    if k < s.len() {
        assert(s.take(k + 1).drop_last() =~= s.take(k));
        lemma_members_prefix_error(s, k + 1);
    } else {
        assert(s.take(k) =~= s);
    }
}

fn out_of_range_error(v: i64) -> (e: String)
    ensures
        e@ == out_of_range_message(v as int),
{
    let mut e = String::from_str("integer parameter out of range: ");
    let digits = format_i64(v);
    e.append(digits.as_str());
    e
}

fn json_number_to_data_container(n: JsonNumber) -> (r: Result<DataContainer, String>)
    ensures
        match r {
            Ok(d) => json_number_to_data(n) == Ok::<DataValue, Seq<char>>(d@),
            Err(e) => json_number_to_data(n) == Err::<DataValue, Seq<char>>(e@),
        },
{
    match n {
        JsonNumber::PosInt(u) => {
            if u <= i64::MAX as u64 {
                if u <= i32::MAX as u64 {
                    Ok(DataContainer::Int(u as i32))
                } else {
                    Err(out_of_range_error(u as i64))
                }
            } else {
                Ok(DataContainer::UnsignedLong(u))
            }
        },
        JsonNumber::NegInt(i) => {
            if i32::MIN as i64 <= i && i <= i32::MAX as i64 {
                Ok(DataContainer::Int(i as i32))
            } else {
                Err(out_of_range_error(i))
            }
        },
        JsonNumber::Float(f) => Ok(DataContainer::Float(f)),
    }
}

/// Converts a JSON value into a value, refusing integers that do not fit.
pub fn json_value_to_data_container(value: &JsonValue) -> (r: Result<DataContainer, String>)
    ensures
        match r {
            Ok(d) => json_to_data(*value) == Ok::<DataValue, Seq<char>>(d@),
            Err(e) => json_to_data(*value) == Err::<DataValue, Seq<char>>(e@),
        },
    decreases value,
{
    match value {
        JsonValue::Null => Ok(DataContainer::Null),
        JsonValue::Bool(b) => Ok(DataContainer::Boolean(*b)),
        JsonValue::Number(n) => json_number_to_data_container(*n),
        JsonValue::String(s) => Ok(DataContainer::Text(s.clone())),
        JsonValue::Array(items) => {
            let mut out: Vec<DataContainer> = Vec::new();
            let mut i: usize = 0;
            assert(items@.take(0) =~= Seq::<JsonValue>::empty());
            assert(Seq::new(0, |j: int| out@[j]@) =~= Seq::<DataValue>::empty());
            while i < items.len()
                invariant
                    *value == JsonValue::Array(*items),
                    i <= items@.len(),
                    out@.len() == i,
                    json_list_to_data(items@.take(i as int))
                        == Ok::<Seq<DataValue>, Seq<char>>(Seq::new(i as nat, |j: int| out@[j]@)),
                decreases items@.len() - i,
            {
                let ghost prev = Seq::new(i as nat, |j: int| out@[j]@);
                assert(items@.take(i + 1).drop_last() =~= items@.take(i as int));
                assert(items@.take(i + 1).last() == items@[i as int]);
                proof {
                    assert(decreases_to!(*items => items[i as int]));
                }
                match json_value_to_data_container(&items[i]) {
                    Ok(d) => {
                        out.push(d);
                        assert(Seq::new((i + 1) as nat, |j: int| out@[j]@) =~= prev.push(out@[i as int]@));
                    },
                    Err(e) => {
                        proof {
                            assert(json_list_to_data(items@.take(i + 1)) == Err::<Seq<DataValue>, Seq<char>>(e@));
                            lemma_list_prefix_error(items@, i + 1);
                        }
                        return Err(e);
                    },
                }
                i = i + 1;
            }
            assert(items@.take(items@.len() as int) =~= items@);
            let ghost vs = Seq::new(i as nat, |j: int| out@[j]@);
            let ghost ov = out@;
            let d = DataContainer::Array(out);
            assert(d@->Array_0 =~= vs);
            Ok(d)
        },
        JsonValue::Object(members) => {
            match json_map_to_info_map(members) {
                Ok(m) => {
                    let ghost mv = m@;
                    let d = DataContainer::Object(m);
                    assert(d@->Object_0 =~= mv);
                    Ok(d)
                },
                Err(e) => Err(e),
            }
        },
    }
}

/// Converts the members of a JSON object into named values, refusing the
/// first member that is refused.
pub fn json_map_to_info_map(map: &Vec<(String, JsonValue)>) -> (r: Result<InfoMap, String>)
    ensures
        match r {
            Ok(m) => json_members_to_data(map@) == Ok::<Seq<(Seq<char>, DataValue)>, Seq<char>>(m@),
            Err(e) => json_members_to_data(map@) == Err::<Seq<(Seq<char>, DataValue)>, Seq<char>>(e@),
        },
    decreases map,
{
    let mut m = InfoMap::new();
    let mut i: usize = 0;
    assert(map@.take(0) =~= Seq::<(String, JsonValue)>::empty());
    assert(m@ =~= Seq::<(Seq<char>, DataValue)>::empty());
    while i < map.len()
        invariant
            i <= map@.len(),
            json_members_to_data(map@.take(i as int)) == Ok::<Seq<(Seq<char>, DataValue)>, Seq<char>>(m@),
        decreases map@.len() - i,
    {
        assert(map@.take(i + 1).drop_last() =~= map@.take(i as int));
        assert(map@.take(i + 1).last() == map@[i as int]);
        proof {
            assert(decreases_to!(*map => map[i as int]));
        }
        match json_value_to_data_container(&map[i].1) {
            Ok(d) => {
                m.push(map[i].0.clone(), d);
            },
            Err(e) => {
                proof {
                    assert(json_members_to_data(map@.take(i + 1))
                        == Err::<Seq<(Seq<char>, DataValue)>, Seq<char>>(e@));
                    lemma_members_prefix_error(map@, i + 1);
                }
                return Err(e);
            },
        }
        i = i + 1;
    }
    assert(map@.take(map@.len() as int) =~= map@);
    Ok(m)
}

/// The answer for one target, once its parameters have been read.
pub open spec fn query_item(
    target: Seq<char>,
    params: Option<Seq<(Seq<char>, DataValue)>>,
    model: Model,
    processes: Option<&Vec<ProcessSnapshot>>,
) -> ItemView {
    match spec_query_info(target, params, model, processes) {
        Some(Some(v)) => ItemView::Success(v, Seq::empty()),
        Some(None) => ItemView::Error("query_failed"@, "No data available for target: "@ + target),
        None => ItemView::Error("query_failed"@, "Unknown query target: "@ + target),
    }
}

/// The answer for one target with its parameters as given: parameters that
/// cannot be read refuse the target without querying it.
pub open spec fn item_for(
    target: Seq<char>,
    params: Option<Vec<(String, JsonValue)>>,
    model: Model,
    processes: Option<&Vec<ProcessSnapshot>>,
) -> ItemView {
    match params {
        Some(m) => match json_members_to_data(m@) {
            Err(message) => ItemView::Error("invalid_parameter"@, message),
            Ok(ms) => query_item(target, Some(ms), model, processes),
        },
        None => query_item(target, None, model, processes),
    }
}

/// The answers to a request's targets, in the request's order.
pub open spec fn items_for(
    payload: Seq<(String, Option<Vec<(String, JsonValue)>>)>,
    model: Model,
    processes: Option<&Vec<ProcessSnapshot>>,
) -> Seq<(Seq<char>, ItemView)> {
    Seq::new(payload.len(), |i: int| (payload[i].0@, item_for(payload[i].0@, payload[i].1, model, processes)))
}

/// How many targets went unanswered.
pub open spec fn failure_count(items: Seq<(Seq<char>, ItemView)>) -> nat
    decreases items.len(),
{
    if items.len() == 0 {
        0
    } else {
        failure_count(items.drop_last()) + if items.last().1 is Error { 1nat } else { 0nat }
    }
}

/// The state of a response: every target answered, none answered, or some.
pub open spec fn state_for(items: Seq<(Seq<char>, ItemView)>) -> u32 {
    if failure_count(items) == 0 {
        SUCCESS_STATE
    } else if failure_count(items) == items.len() {
        INTERNAL_ERROR_STATE
    } else {
        PARTIAL_SUCCESS_STATE
    }
}

proof fn lemma_failure_count_bound(items: Seq<(Seq<char>, ItemView)>)
    ensures
        failure_count(items) <= items.len(),
    decreases items.len(),
{
    if items.len() > 0 {
        lemma_failure_count_bound(items.drop_last());
    }
}

fn failure_item(code: &str, message: String) -> (item: PayloadItem)
    ensures
        item_view(item) == ItemView::Error(code@, message@),
{
    PayloadItem::Error { error: ResponseError { code: String::from_str(code), message } }
}

fn answer_target(
    target: &String,
    params: &Option<Vec<(String, JsonValue)>>,
    model: &Model,
    processes: Option<&Vec<ProcessSnapshot>>,
) -> (item: PayloadItem)
    ensures
        item_view(item) == item_for(target@, *params, *model, processes),
{
    let parameter = match params {
        None => None,
        Some(m) => match json_map_to_info_map(m) {
            Ok(im) => Some(im),
            Err(message) => {
                return failure_item("invalid_parameter", message);
            },
        },
    };
    let request = QueryRequest { target: target.clone(), parameter };
    match query_info(&request, model, processes) {
        Ok(result) => {
            let addition = match result.addition {
                Some(a) => a,
                None => InfoMap::new(),
            };
            let item = PayloadItem::Success { result: result.value, addition };
            assert(addition@ =~= Seq::<(Seq<char>, DataValue)>::empty());
            item
        },
        Err(e) => {
            let message = e.message();
            failure_item("query_failed", message)
        },
    }
}

/// Answers a request for values: one entry per target, in order. The
/// response is refused when no target could be answered (state 500, unless
/// there were no targets); otherwise its state says whether every target
/// (100) or only some (207) were answered.
pub fn handle_v2_get_info(
    req: Request,
    model: &Model,
    processes: Option<&Vec<ProcessSnapshot>>,
) -> (r: Result<Response, Response>)
    ensures
        match r {
            Ok(resp) => resp.state != INTERNAL_ERROR_STATE,
            Err(resp) => resp.state == INTERNAL_ERROR_STATE,
        },
        match r {
            Ok(resp) | Err(resp) => {
                &&& resp.version == req.version
                &&& resp.id == req.id
                &&& payload_view(resp.payload@) == items_for(req.payload@, *model, processes)
                &&& resp.state == state_for(items_for(req.payload@, *model, processes))
            },
        },
{
    let ghost items = items_for(req.payload@, *model, processes);
    let mut payload: Vec<(String, PayloadItem)> = Vec::new();
    let mut failures: usize = 0;
    let mut i: usize = 0;
    while i < req.payload.len()
        invariant
            items == items_for(req.payload@, *model, processes),
            i <= req.payload@.len(),
            payload@.len() == i,
            payload_view(payload@) == items.take(i as int),
            failures as nat == failure_count(items.take(i as int)),
        decreases req.payload@.len() - i,
    {
        let item = answer_target(&req.payload[i].0, &req.payload[i].1, model, processes);
        let is_error = match &item {
            PayloadItem::Error { .. } => true,
            _ => false,
        };
        proof {
            lemma_failure_count_bound(items.take(i as int));
        }
        if is_error {
            failures = failures + 1;
        }
        let ghost before = payload@;
        payload.push((req.payload[i].0.clone(), item));
        proof {
            assert(items.take(i + 1).drop_last() =~= items.take(i as int));
            assert(payload_view(payload@) =~= payload_view(before).push(items[i as int]));
            assert(items.take(i + 1) =~= items.take(i as int).push(items[i as int]));
        }
        i = i + 1;
    }
    assert(items.take(i as int) =~= items);
    let state = if failures == 0 {
        SUCCESS_STATE
    } else if failures == payload.len() {
        INTERNAL_ERROR_STATE
    } else {
        PARTIAL_SUCCESS_STATE
    };
    let response = Response { version: req.version, id: req.id, state, payload };
    if state == SUCCESS_STATE || state == PARTIAL_SUCCESS_STATE {
        Ok(response)
    } else {
        Err(response)
    }
}

/// The response that refuses a whole request: version 2, state 404, and one
/// entry `error` with the given code and message.
pub fn v2_request_error(id: String, code: &str, message: &str) -> (r: Response)
    ensures
        r.version == 2,
        r.id == id,
        r.state == NOT_FOUND_STATE,
        payload_view(r.payload@) == seq![("error"@, ItemView::Error(code@, message@))],
{
    let mut payload: Vec<(String, PayloadItem)> = Vec::new();
    payload.push((String::from_str("error"), failure_item(code, String::from_str(message))));
    let r = Response { version: 2, id, state: NOT_FOUND_STATE, payload };
    assert(payload_view(r.payload@) =~= seq![("error"@, ItemView::Error(code@, message@))]);
    r
}

/// Answers a request: a request for values is answered target by target;
/// running a tool and shutting down are refused as not implemented.
pub fn execute_v2_request(
    req: Request,
    model: &Model,
    processes: Option<&Vec<ProcessSnapshot>>,
) -> (r: Result<Response, Response>)
    ensures
        req.command == Command::GetInfo ==> match r {
            Ok(resp) | Err(resp) => {
                &&& resp.version == req.version
                &&& resp.id == req.id
                &&& payload_view(resp.payload@) == items_for(req.payload@, *model, processes)
                &&& resp.state == state_for(items_for(req.payload@, *model, processes))
                &&& (r is Err <==> resp.state == INTERNAL_ERROR_STATE)
            },
        },
        req.command == Command::ExecuteTool ==> (r matches Err(resp) && resp.version == 2 && resp.id == req.id
            && resp.state == NOT_FOUND_STATE
            && payload_view(resp.payload@) == seq![("error"@, ItemView::Error("not_implemented"@, "execute_tool is not implemented"@))]),
        req.command == Command::Shutdown ==> (r matches Err(resp) && resp.version == 2 && resp.id == req.id
            && resp.state == NOT_FOUND_STATE
            && payload_view(resp.payload@) == seq![("error"@, ItemView::Error("not_implemented"@, "shutdown is not implemented"@))]),
{
    match req.command {
        Command::GetInfo => handle_v2_get_info(req, model, processes),
        Command::ExecuteTool => Err(v2_request_error(req.id, "not_implemented", "execute_tool is not implemented")),
        Command::Shutdown => Err(v2_request_error(req.id, "not_implemented", "shutdown is not implemented")),
    }
}


/// A response's state says how many targets went unanswered: none gives
/// 100, all of them (and at least one) gives 500, some gives 207; and only
/// the first two are possible when there is a single target.
pub proof fn law_state_counts_failures(items: Seq<(Seq<char>, ItemView)>)
    ensures
        state_for(items) == SUCCESS_STATE <==> failure_count(items) == 0,
        state_for(items) == INTERNAL_ERROR_STATE <==> (items.len() > 0 && failure_count(items) == items.len()),
        state_for(items) == PARTIAL_SUCCESS_STATE <==> (0 < failure_count(items) < items.len()),
        items.len() == 1 ==> state_for(items) != PARTIAL_SUCCESS_STATE,
{
    lemma_failure_count_bound(items);
}


/// A target whose parameters convert is answered with those parameters: its
/// entry is what the query with the converted parameters gives (its value,
/// or the message that it has none or names nothing).
pub proof fn law_parameters_reach_the_query(
    target: Seq<char>,
    params: Vec<(String, JsonValue)>,
    converted: Seq<(Seq<char>, DataValue)>,
    model: Model,
    processes: Option<&Vec<ProcessSnapshot>>,
)
    requires
        json_members_to_data(params@) == Ok::<Seq<(Seq<char>, DataValue)>, Seq<char>>(converted),
    ensures
        item_for(target, Some(params), model, processes) == match spec_query_info(target, Some(converted), model, processes) {
            Some(Some(v)) => ItemView::Success(v, Seq::empty()),
            Some(None) => ItemView::Error("query_failed"@, "No data available for target: "@ + target),
            None => ItemView::Error("query_failed"@, "Unknown query target: "@ + target),
        },
{
}

/// A process listing asked for with a `limit` of `n` lists the smaller of
/// `n` and the number of running processes.
pub proof fn law_process_limit_is_applied(
    params: Vec<(String, JsonValue)>,
    converted: Seq<(Seq<char>, DataValue)>,
    n: i32,
    model: Model,
    processes: &Vec<ProcessSnapshot>,
)
    requires
        json_members_to_data(params@) == Ok::<Seq<(Seq<char>, DataValue)>, Seq<char>>(converted),
        crate::util::data_container::lookup(converted, "limit"@) == Some(DataValue::Int(n)),
        n >= 0,
    ensures
        item_for("process"@, Some(params), model, Some(processes)) matches ItemView::Success(DataValue::Array(items), _)
            && items.len() == if n < processes@.len() { n as int } else { processes@.len() as int },
{
    crate::monitor::model::law_sort_names_pick_their_field(converted);
    assert(crate::monitor::model::strategy_for(Some(converted)).limit == Some(n as usize));
}

} // verus!
