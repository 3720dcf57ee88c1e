//! What a request is answered.

use vstd::prelude::*;

use crate::text_map::TextMap;

verus! {

/// The HTTP status of an answer.
#[derive(Clone, Copy, Debug, PartialEq, Eq, Structural)]
pub enum Status {
    Success,
    Unauthorized,
    NotFound,
    Conflict,
    InternalServerError,
}

impl Status {
    /// The number of the status.
    pub open spec fn number(self) -> u16 {
        match self {
            Status::Success => 200,
            Status::Unauthorized => 401,
            Status::NotFound => 404,
            Status::Conflict => 409,
            Status::InternalServerError => 500,
        }
    }

    /// The number of the status.
    pub fn code(self) -> (code: u16)
        ensures
            code == self.number(),
    {
        match self {
            Status::Success => 200,
            Status::Unauthorized => 401,
            Status::NotFound => 404,
            Status::Conflict => 409,
            Status::InternalServerError => 500,
        }
    }
}

/// An answer: its status, and the JSON object in its body, whose members are
/// all texts.
pub struct Reply {
    pub status: Status,
    pub body: TextMap,
}

/// [`Reply`] by its contents.
pub struct ReplyView {
    pub status: Status,
    pub body: Map<Seq<char>, Seq<char>>,
}

impl View for Reply {
    type V = ReplyView;

    open spec fn view(&self) -> ReplyView {
        ReplyView { status: self.status, body: self.body@ }
    }
}

/// A JSON object as `serde_json` keeps it.
#[verifier::external_type_specification]
#[verifier::external_body]
#[verifier::reject_recursive_types(K)]
#[verifier::reject_recursive_types(V)]
pub struct ExJsonMap<K, V>(serde_json::Map<K, V>);

/// A JSON value of any kind.
#[verifier::external_type_specification]
#[verifier::external_body]
pub struct ExJsonValue(serde_json::Value);

/// The members of a JSON object: under each key the text that stands there,
/// or `None` where what stands there is no text.
pub uninterp spec fn json_members(
    object: serde_json::Map<String, serde_json::Value>,
) -> Map<Seq<char>, Option<Seq<char>>>;

/// `serde_json::Map::new`: the object without members.
#[verifier::external_body]
pub(crate) fn json_object() -> (object: serde_json::Map<String, serde_json::Value>)
    ensures
        (json_members(object) == Map::<Seq<char>, Option<Seq<char>>>::empty()),
{
    serde_json::Map::new()
}

/// `serde_json::Map::insert` with a text as the value: the text stands under
/// the key, in place of what stood there, and nothing else changes.
#[verifier::external_body]
pub(crate) fn json_insert_text(
    object: &mut serde_json::Map<String, serde_json::Value>,
    key: String,
    text: String,
)
    ensures
        json_members(*final(object)) == json_members(*old(object)).insert(key@, Some(text@)),
{
    object.insert(key, serde_json::Value::String(text));
}

/// A map of texts as the members of a JSON object.
pub open spec fn as_members(map: Map<Seq<char>, Seq<char>>) -> Map<Seq<char>, Option<Seq<char>>> {
    map.map_values(|text: Seq<char>| Some(text))
}

impl Reply {
    /// The body as a JSON object.
    pub fn into_json(self) -> (object: serde_json::Map<String, serde_json::Value>)
        ensures
            json_members(object) == as_members(self@.body),
            forall|key: Seq<char>| #[trigger]
                json_members(object).contains_key(key) <==> self.body@.contains_key(key),
            forall|key: Seq<char>|
                self.body@.contains_key(key) ==> #[trigger] json_members(object)[key] == Some(
                    self.body@[key],
                ),
    {
        let entries = self.body.into_entries();
        let mut object = json_object();
        let mut i: usize = 0;
        proof {
            assert(as_members(crate::text_map::entries_map(entries@.take(0))) =~= Map::<
                Seq<char>,
                Option<Seq<char>>,
            >::empty());
        }
        while i < entries.len()
            invariant
                i <= entries@.len(),
                json_members(object) == as_members(
                    crate::text_map::entries_map(entries@.take(i as int)),
                ),
            decreases entries@.len() - i,
        {
            json_insert_text(&mut object, entries[i].0.clone(), entries[i].1.clone());
            proof {
                let before = crate::text_map::entries_map(entries@.take(i as int));
                let (key, text) = entries@[i as int];
                assert(entries@.take(i + 1).drop_last() =~= entries@.take(i as int));
                assert(entries@.take(i + 1).last() == entries@[i as int]);
                assert(as_members(before.insert(key@, text@)) =~= as_members(before).insert(
                    key@,
                    Some(text@),
                ));
            }
            i = i + 1;
        }
        proof {
            assert(entries@.take(entries@.len() as int) =~= entries@);
        }
        object
    }
}

/// An answer is shown by its status and the members of its body.
pub proof fn law_reply_is_shown(reply: Reply)
    ensures
        reply@.status == reply.status,
        reply@.body == reply.body@,
{
}

/// In JSON each member of a body stands under its own key, with its own text,
/// and nothing else stands there.
pub proof fn law_members_are_the_body(map: Map<Seq<char>, Seq<char>>, key: Seq<char>)
    ensures
        as_members(map).contains_key(key) <==> map.contains_key(key),
        map.contains_key(key) ==> as_members(map)[key] == Some(map[key]),
{
}

/// The statuses by their numbers.
pub proof fn law_status_numbers()
    ensures
        Status::Success.number() == 200,
        Status::Unauthorized.number() == 401,
        Status::NotFound.number() == 404,
        Status::Conflict.number() == 409,
        Status::InternalServerError.number() == 500,
{
}

} // verus!
