use vstd::prelude::*;

verus! {

/// The payload of a hub message is any JSON value; the library carries it
/// through without looking inside.
#[verifier::external_type_specification]
#[verifier::external_body]
pub struct ExJsonValue(serde_json::Value);

/// What a client sends to the event hub.
pub enum Message {
    /// Listen to these topics from now on (replacing earlier ones).
    Register { topics: Vec<String> },
    /// Hand `payload` to every client that listens to `topic`.
    Publish { topic: String, payload: serde_json::Value },
}

/// What the event hub forwards to a listening client.
pub struct IncomingMessage {
    pub topic: String,
    pub payload: serde_json::Value,
}

/// The names in `topics`, as character sequences.
pub open spec fn str_names(topics: Seq<&str>) -> Seq<Seq<char>> {
    topics.map_values(|t: &str| t@)
}

impl Message {
    /// A registration for the given topics, in the given order.
    pub fn register(topics: Vec<&str>) -> (m: Message)
        ensures
            m matches Message::Register { topics: owned } && owned@.map_values(|t: String| t@) == str_names(topics@),
    {
        let mut owned: Vec<String> = Vec::new();
        let mut i: usize = 0;
        while i < topics.len()
            invariant
                i <= topics.len(),
                owned@.len() == i,
                forall|j: int| 0 <= j < i ==> owned@[j]@ == topics@[j]@,
            decreases topics.len() - i,
        {
            owned.push(topics[i].to_owned());
            i = i + 1;
        }
        assert(owned@.map_values(|t: String| t@) =~= str_names(topics@));
        Message::Register { topics: owned }
    }

    /// A publication of `payload` under `topic`.
    pub fn publish(topic: &str, payload: serde_json::Value) -> (m: Message)
        ensures
            m matches Message::Publish { topic: t, payload: p } && t@ == topic@ && p == payload,
    {
        Message::Publish { topic: topic.to_owned(), payload }
    }
}

/// What `serde_json` reads of a line that a hub client receives: `None`
/// when the line is not JSON; else the line's `topic` entry when that is a
/// string (`None` when there is no such entry or it is not a string), and its
/// `payload` entry (`None` when there is none).
pub uninterp spec fn json_line_fields(line: Seq<char>) -> Option<(Option<Seq<char>>, Option<serde_json::Value>)>;

/// Parses `line` with `serde_json::from_str` into a JSON value and takes its
/// `topic` entry, when that is a string, and a copy of its `payload` entry.
/// The contract says that both are what `json_line_fields` names for the line.
#[verifier::external_body]
fn read_json_line(line: &str) -> (r: Option<(Option<String>, Option<serde_json::Value>)>)
    ensures
        match r {
            Some((t, p)) => json_line_fields(line@) == Some((match t {
                Some(s) => Some(s@),
                None => None,
            }, p)),
            None => json_line_fields(line@) is None,
        },
{
    serde_json::from_str::<serde_json::Value>(line).ok().map(
        |v| (v.get("topic").and_then(|t| t.as_str()).map(|t| t.to_string()), v.get("payload").cloned()),
    )
}

/// The JSON value `null` (`serde_json::Value::Null`). Nothing is stated of
/// it: the library sees JSON values only as opaque.
#[verifier::external_body]
fn json_null() -> serde_json::Value {
    serde_json::Value::Null
}

/// The topic and payload that a parsed hub line hands on: nothing when the
/// line was not JSON; else its topic, or the empty string when it has none,
/// and its payload, or `null` when it has none.
pub fn hub_fields(parsed: Option<(Option<String>, Option<serde_json::Value>)>) -> (r: Option<(String, serde_json::Value)>)
    ensures
        match parsed {
            None => r is None,
            Some((t, p)) => r matches Some((topic, payload)) && topic@ == (match t {
                Some(s) => s@,
                None => Seq::<char>::empty(),
            }) && (p matches Some(v) ==> payload == v),
        },
{
    match parsed {
        None => None,
        Some((t, p)) => {
            let topic = match t {
                Some(s) => s,
                None => String::new(),
            };
            let payload = match p {
                Some(v) => v,
                None => json_null(),
            };
            Some((topic, payload))
        },
    }
}

/// The topic and payload of a line a hub client receives: nothing when the
/// line is not JSON; else its `topic` entry, or the empty string when that
/// is missing or not a string, and its `payload` entry, or `null` when it is
/// missing.
pub fn hub_line(line: &str) -> (r: Option<(String, serde_json::Value)>)
    ensures
        (r is Some) <==> (json_line_fields(line@) is Some),
        r matches Some((t, p)) ==> json_line_fields(line@) matches Some((topic, payload)) && t@ == (match topic {
            Some(s) => s,
            None => Seq::<char>::empty(),
        }) && (payload matches Some(v) ==> p == v),
{
    hub_fields(read_json_line(line))
}

} // verus!
