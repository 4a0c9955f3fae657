//! The outline of a JSON text: whether it parses, whether it is an object,
//! and what kind of value each member of that object holds.
//!
//! Parsing is left to `serde_json`. What comes back is turned at once into
//! plain values of this module, on which the rest of the library works.

use vstd::prelude::*;

verus! {

/// The kind of a JSON value, with its content where it is a boolean or a
/// string.
pub enum JsonValue {
    Null,
    Bool(bool),
    Number,
    Text(String),
    Array,
    Object,
}

/// The mathematical value of a [`JsonValue`].
pub enum JsonValueView {
    Null,
    Bool(bool),
    Number,
    Text(Seq<char>),
    Array,
    Object,
}

impl View for JsonValue {
    type V = JsonValueView;

    open spec fn view(&self) -> JsonValueView {
        match self {
            JsonValue::Null => JsonValueView::Null,
            JsonValue::Bool(b) => JsonValueView::Bool(*b),
            JsonValue::Number => JsonValueView::Number,
            JsonValue::Text(s) => JsonValueView::Text(s@),
            JsonValue::Array => JsonValueView::Array,
            JsonValue::Object => JsonValueView::Object,
        }
    }
}

/// One member of a JSON object.
pub struct JsonMember {
    pub key: String,
    pub value: JsonValue,
}

/// The mathematical value of a [`JsonMember`].
pub struct JsonMemberView {
    pub key: Seq<char>,
    pub value: JsonValueView,
}

impl View for JsonMember {
    type V = JsonMemberView;

    open spec fn view(&self) -> JsonMemberView {
        JsonMemberView { key: self.key@, value: self.value@ }
    }
}

/// What a sequence of bytes is when read as JSON.
pub enum JsonText {
    /// Not a JSON text.
    Invalid,
    /// A JSON text whose value is no object.
    NotObject,
    /// A JSON object, with its members.
    Object(Vec<JsonMember>),
}

/// The mathematical value of a [`JsonText`].
pub enum JsonTextView {
    Invalid,
    NotObject,
    Object(Seq<JsonMemberView>),
}

impl View for JsonText {
    type V = JsonTextView;

    open spec fn view(&self) -> JsonTextView {
        match self {
            JsonText::Invalid => JsonTextView::Invalid,
            JsonText::NotObject => JsonTextView::NotObject,
            JsonText::Object(members) => JsonTextView::Object(
                members@.map_values(|m: JsonMember| m@),
            ),
        }
    }
}

/// What `serde_json` makes of `bytes`.
pub uninterp spec fn json_text(bytes: Seq<u8>) -> JsonTextView;

/// Parses `bytes` with `serde_json::from_slice` into a `serde_json::Value`
/// and hands back its outline: `Invalid` where the parser reports an error,
/// `NotObject` where the value is anything but an object, and else the
/// members of the object, each with the kind of its value. The parser reads
/// the bytes and nothing else, so the outline is a function of the bytes; the
/// contract gives that function a name and says no more of it.
#[verifier::external_body]
pub(crate) fn parse_json(bytes: &[u8]) -> (r: JsonText)
    ensures
        r@ == json_text(bytes@),
{
    let kind = |v: serde_json::Value| match v {
        serde_json::Value::Null => JsonValue::Null,
        serde_json::Value::Bool(b) => JsonValue::Bool(b),
        serde_json::Value::Number(_) => JsonValue::Number,
        serde_json::Value::String(s) => JsonValue::Text(s),
        serde_json::Value::Array(_) => JsonValue::Array,
        serde_json::Value::Object(_) => JsonValue::Object,
    };
    match serde_json::from_slice::<serde_json::Value>(bytes) {
        Err(_) => JsonText::Invalid,
        Ok(serde_json::Value::Object(m)) => JsonText::Object(
            m.into_iter().map(|(key, v)| JsonMember { key, value: kind(v) }).collect()),
        Ok(_) => JsonText::NotObject,
    }
}

/// The value of the first member of `members` whose key is `key`.
pub open spec fn member_value(members: Seq<JsonMemberView>, key: Seq<char>) -> Option<
    JsonValueView,
>
    decreases members.len(),
{
    if members.len() == 0 {
        None
    } else if members[0].key == key {
        Some(members[0].value)
    } else {
        member_value(members.skip(1), key)
    }
}

/// Looks a member up by its key.
pub fn find_member<'a>(members: &'a Vec<JsonMember>, key: &str) -> (r: Option<&'a JsonValue>)
    ensures
        match r {
            Some(v) => member_value(members@.map_values(|m: JsonMember| m@), key@) == Some(v@),
            None => member_value(members@.map_values(|m: JsonMember| m@), key@) is None,
        },
{
    let wanted = key.to_owned();
    let ghost views = members@.map_values(|m: JsonMember| m@);
    let mut i: usize = 0;
    assert(views.skip(0) =~= views);
    while i < members.len()
        invariant
            i <= members.len(),
            wanted@ == key@,
            views == members@.map_values(|m: JsonMember| m@),
            member_value(views, key@) == member_value(views.skip(i as int), key@),
        decreases members.len() - i,
    {
        proof {
            assert(views.skip(i as int)[0] == members@[i as int]@);
            assert(views.skip(i as int).skip(1) =~= views.skip(i + 1));
        }
        if members[i].key == wanted {
            return Some(&members[i].value);
        }
        i += 1;
    }
    proof {
        assert(views.skip(i as int).len() == 0);
    }
    None
}

/// `text` as a JSON string: in double quotes, with what must be escaped
/// escaped, as `serde_json` writes it.
pub uninterp spec fn json_string(text: Seq<char>) -> Seq<char>;

/// Writes `text` as a JSON string: makes a `serde_json::Value::String` of it
/// and takes what its `Display` writes, the compact form. The form is a
/// function of the text; the contract gives that function a name and says no
/// more of it.
#[verifier::external_body]
pub(crate) fn quote_json(text: &str) -> (quoted: String)
    ensures
        quoted@ == json_string(text@),
{
    serde_json::Value::String(text.to_owned()).to_string()
}

} // verus!
