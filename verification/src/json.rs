//! JSON texts: what serde_json reads in them, and walks into nested values
//! by keys and positions.
use vstd::prelude::*;
use crate::text::{concat, lemma_empty_literal};

verus! {

/// The text of an optional string.
pub open spec fn opt_view(o: Option<String>) -> Option<Seq<char>> {
    match o {
        Some(s) => Some(s@),
        None => None,
    }
}

/// Names the JSON text of `value[key]` for the JSON value that `text` holds
/// (`serde_json::from_str`, then indexing by a key, then `to_string`);
/// `None` when `text` is not JSON.
pub uninterp spec fn json_member(text: Seq<char>, key: Seq<char>) -> Option<Seq<char>>;

/// Names the JSON text of `value[index]` for the JSON value that `text`
/// holds; `None` when `text` is not JSON.
pub uninterp spec fn json_element(text: Seq<char>, index: nat) -> Option<Seq<char>>;

/// Names `Value::as_str` of the JSON value that `text` holds; `None` when
/// `text` is not JSON.
pub uninterp spec fn json_string(text: Seq<char>) -> Option<Option<Seq<char>>>;

/// Calls `serde_json::from_str` and indexes the value by a key
/// (`Value::index`, `Null` when absent), then `Value::to_string`. Its result
/// is believed to be `json_member` of its arguments.
#[verifier::external_body]
pub(crate) fn json_member_text(text: &str, key: &str) -> (r: Option<String>)
    ensures
        opt_view(r) == json_member(text@, key@),
{
    let v: serde_json::Value = serde_json::from_str(text).ok()?;
    Some(v[key].to_string())
}

/// Calls `serde_json::from_str` and indexes the value by a position
/// (`Value::index`, `Null` when absent), then `Value::to_string`. Its result
/// is believed to be `json_element` of its arguments.
#[verifier::external_body]
pub(crate) fn json_element_text(text: &str, index: usize) -> (r: Option<String>)
    ensures
        opt_view(r) == json_element(text@, index as nat),
{
    let v: serde_json::Value = serde_json::from_str(text).ok()?;
    Some(v[index].to_string())
}

/// Calls `serde_json::from_str` and `Value::as_str`. Its result is believed
/// to be `json_string` of its argument.
#[verifier::external_body]
pub(crate) fn json_string_value(text: &str) -> (r: Option<Option<String>>)
    ensures
        r is Some <==> json_string(text@) is Some,
        r matches Some(o) ==> json_string(text@) == Some(opt_view(o)),
{
    let v: serde_json::Value = serde_json::from_str(text).ok()?;
    Some(v.as_str().map(|s| s.to_string()))
}

/// One step into a JSON value: a member by key or an array element by position.
pub enum JsonStep {
    Member(&'static str),
    Element(usize),
}

pub open spec fn step_view(s: JsonStep) -> Result<Seq<char>, nat> {
    match s {
        JsonStep::Member(k) => Ok(k@),
        JsonStep::Element(i) => Err(i as nat),
    }
}

/// The JSON text reached from `text` by the steps in turn; `None` where a
/// text on the way is not JSON.
pub open spec fn json_walk(text: Seq<char>, steps: Seq<Result<Seq<char>, nat>>) -> Option<Seq<char>>
    decreases steps.len(),
{
    if steps.len() == 0 {
        Some(text)
    } else {
        match json_walk(text, steps.drop_last()) {
            None => None,
            Some(t) => match steps.last() {
                Ok(k) => json_member(t, k),
                Err(i) => json_element(t, i),
            },
        }
    }
}

/// Walks into the JSON value that `text` holds, step by step, giving the JSON
/// text of the value reached; `None` where a text on the way is not JSON.
pub fn walk_json(text: &str, steps: &Vec<JsonStep>) -> (r: Option<String>)
    ensures
        opt_view(r) == json_walk(text@, steps@.map_values(|s: JsonStep| step_view(s))),
{
    let ghost sv = steps@.map_values(|s: JsonStep| step_view(s));
    let mut cur: String = concat(text, "");
    proof {
        lemma_empty_literal();
        assert(text@ + Seq::<char>::empty() =~= text@);
    }
    let mut i: usize = 0;
    while i < steps.len()
        invariant
            i <= steps@.len(),
            sv == steps@.map_values(|s: JsonStep| step_view(s)),
            json_walk(text@, sv.take(i as int)) == Some(cur@),
        decreases steps@.len() - i,
    {
        proof {
            assert(sv.take(i + 1).drop_last() =~= sv.take(i as int));
            assert(sv.take(i + 1).last() == step_view(steps@[i as int]));
        }
        let next = match steps[i] {
            JsonStep::Member(k) => json_member_text(cur.as_str(), k),
            JsonStep::Element(n) => json_element_text(cur.as_str(), n),
        };
        match next {
            None => {
                proof {
                    lemma_json_walk_none(text@, sv, i + 1);
                }
                return None;
            },
            Some(t) => {
                cur = t;
            },
        }
        i = i + 1;
    }
    proof {
        assert(sv.take(steps@.len() as int) =~= sv);
    }
    Some(cur)
}

proof fn lemma_json_walk_none(text: Seq<char>, steps: Seq<Result<Seq<char>, nat>>, k: int)
    requires
        0 < k <= steps.len(),
        json_walk(text, steps.take(k)) is None,
    ensures
        json_walk(text, steps) is None,
    decreases steps.len() - k,
{
    if k < steps.len() {
        assert(steps.take(k + 1).drop_last() =~= steps.take(k));
        lemma_json_walk_none(text, steps, k + 1);
    } else {
        assert(steps.take(k) =~= steps);
    }
}

} // verus!
