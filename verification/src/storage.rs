//! The store-facing edge: key prefixing and the wire format.
//!
//! Every backend namespaces its keys with one configurable prefix and
//! stores a record's data as a JSON object of its string pairs. The JSON
//! calls stand behind trusted wrappers; everything around them is verified.

use vstd::prelude::*;
use vstd::string::StringExecFns;

use crate::data::SessionData;
use crate::data::keys_unique;
use crate::data::map_of;
use crate::engine::load_session;
use crate::record::SessionInner;
use crate::record::SessionStatus;

verus! {

/// The store key for a session id: the configured prefix, then the id.
/// Every backend operation must key the same way.
pub fn prefixed_key(prefix: &str, id: &str) -> (r: String)
    ensures
        r@ == prefix@ + id@,
{
    let mut key = prefix.to_owned();
    key.append(id);
    key
}

/// The string-to-string object a JSON text parses to, if it is one; a
/// function of the text alone.
pub uninterp spec fn parsed_obj(s: Seq<char>) -> Option<Map<Seq<char>, Seq<char>>>;

/// Relies on serde_json::to_string over a string-keyed B-tree map: it
/// always succeeds — its only error paths are non-string keys and writer
/// failures, and writing to a byte vector cannot fail — and the produced
/// JSON object parses back, with serde_json::from_str, to exactly the
/// entries that went in.
#[verifier::external_body]
fn encode_pairs(pairs: &Vec<(String, String)>) -> (r: Option<String>)
    requires
        keys_unique(pairs@),
    ensures
        r is Some,
        r matches Some(s) ==> parsed_obj(s@) == Some(map_of(pairs@)),
{
    let mut object = std::collections::BTreeMap::new();
    for pair in pairs.iter() {
        object.insert(pair.0.clone(), pair.1.clone());
    }
    serde_json::to_string(&object).ok()
}

/// Relies on serde_json::from_str into a string-keyed B-tree map: the
/// parse succeeds exactly on JSON objects of strings, and hands their
/// entries out with unique keys.
#[verifier::external_body]
fn decode_pairs(s: &str) -> (r: Option<Vec<(String, String)>>)
    ensures
        r is Some <==> parsed_obj(s@) is Some,
        r matches Some(v) ==> keys_unique(v@) && Some(map_of(v@)) == parsed_obj(s@),
{
    let object: std::collections::BTreeMap<String, String> = match serde_json::from_str(s) {
        Ok(m) => m,
        Err(_) => return None,
    };
    Some(object.into_iter().collect())
}

/// Encodes a record's data for the store: always succeeds, and the JSON
/// object parses back to exactly this data. String-to-string data is
/// always representable on the wire; only an adapter serializing typed
/// values can hit a `Serialization` error.
pub fn encode_session_data(data: &SessionData) -> (r: String)
    ensures
        parsed_obj(r@) == Some(data@),
{
    encode_pairs(data.entries()).unwrap()
}

/// Rebuilds a data bag from a stored payload: exactly the object the
/// payload parses to, or `None` where it is not a JSON object of strings.
pub fn session_data_from_payload(payload: &str) -> (r: Option<SessionData>)
    ensures
        r is Some <==> parsed_obj(payload@) is Some,
        r matches Some(d) ==> Some(d@) == parsed_obj(payload@),
{
    match decode_pairs(payload) {
        Some(entries) => Some(SessionData::from_entries(entries)),
        None => None,
    }
}

/// The record a request starts with, from the store's raw answer.
///
/// A presented cookie id whose payload parses yields that data under the
/// presented id, untouched. No cookie, no payload — the miss and the store
/// error alike — or an unparseable payload yields a fresh record under
/// `fresh_id`, empty and already dirty. This never fails.
pub fn load_from_payload(
    presented: Option<String>,
    payload: Option<String>,
    fresh_id: String,
) -> (r: SessionInner)
    ensures
        presented is Some && payload is Some && parsed_obj(payload.unwrap()@) is Some ==> {
            &&& r@.id == presented.unwrap()@
            &&& Some(r@.data) == parsed_obj(payload.unwrap()@)
            &&& r@.status == SessionStatus::UnChange
        },
        !(presented is Some && payload is Some && parsed_obj(payload.unwrap()@) is Some) ==> {
            &&& r@.id == fresh_id@
            &&& r@.data == Map::<Seq<char>, Seq<char>>::empty()
            &&& r@.status == SessionStatus::Change
        },
{
    let stored = match &payload {
        Some(p) => session_data_from_payload(p.as_str()),
        None => None,
    };
    load_session(presented, stored, fresh_id)
}

} // verus!
