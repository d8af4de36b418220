use vstd::prelude::*;

verus! {

/// A JSON value as the inference engine reads it.
///
/// Inference classifies values by shape alone, so numbers carry only the
/// is-integer distinction and booleans and strings carry no payload.
/// Object members keep their insertion order.
#[derive(Debug, PartialEq)]
pub enum JsonValue {
    Null,
    Bool,
    Number { integral: bool },
    Str,
    Array(Vec<JsonValue>),
    Object(Vec<JsonMember>),
}

/// One key/value entry of a JSON object.
#[derive(Debug, PartialEq)]
pub struct JsonMember {
    pub key: String,
    pub value: JsonValue,
}

/// The mathematical model of a JSON value.
#[verifier::ext_equal]
pub enum JsonV {
    Null,
    Bool,
    Number { integral: bool },
    Str,
    Array(Seq<JsonV>),
    Object(Seq<MemberV>),
}

/// The mathematical model of one object member.
#[verifier::ext_equal]
pub struct MemberV {
    pub key: Seq<char>,
    pub value: JsonV,
}

/// The model of a JSON value: payload-free, with sequences for arrays
/// and ordered key/value pairs for objects.
pub open spec fn json_view(v: JsonValue) -> JsonV
    decreases v,
{
    match v {
        JsonValue::Null => JsonV::Null,
        JsonValue::Bool => JsonV::Bool,
        JsonValue::Number { integral } => JsonV::Number { integral },
        JsonValue::Str => JsonV::Str,
        JsonValue::Array(elems) => JsonV::Array(json_list_view(elems@)),
        JsonValue::Object(members) => JsonV::Object(member_list_view(members@)),
    }
}

/// The models of a sequence of JSON values, elementwise.
pub open spec fn json_list_view(s: Seq<JsonValue>) -> Seq<JsonV>
    decreases s,
{
    if s.len() == 0 {
        Seq::empty()
    } else {
        json_list_view(s.drop_last()).push(json_view(s.last()))
    }
}

/// The models of a sequence of object members, elementwise.
pub open spec fn member_list_view(s: Seq<JsonMember>) -> Seq<MemberV>
    decreases s,
{
    if s.len() == 0 {
        Seq::empty()
    } else {
        member_list_view(s.drop_last()).push(
            MemberV { key: s.last().key@, value: json_view(s.last().value) },
        )
    }
}

pub proof fn lemma_json_list_view(s: Seq<JsonValue>)
    ensures
        json_list_view(s).len() == s.len(),
        forall|i: int|
            0 <= i < s.len() ==> #[trigger] json_list_view(s)[i] == json_view(s[i]),
    decreases s.len(),
{
    if s.len() > 0 {
        lemma_json_list_view(s.drop_last());
    }
}

pub proof fn lemma_member_list_view(s: Seq<JsonMember>)
    ensures
        member_list_view(s).len() == s.len(),
        forall|i: int|
            0 <= i < s.len() ==> #[trigger] member_list_view(s)[i]
                == (MemberV { key: s[i].key@, value: json_view(s[i].value) }),
    decreases s.len(),
{
    if s.len() > 0 {
        lemma_member_list_view(s.drop_last());
    }
}

} // verus!
