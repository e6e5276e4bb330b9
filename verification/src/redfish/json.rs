use crate::redfish::rest::{same_text, RestError, RestErrorView};
use vstd::prelude::*;

verus! {

/// One member of a JSON object: its key, and its value where that is a string.
#[derive(Debug, PartialEq, Eq)]
pub struct Member {
    pub key: String,
    pub text: Option<String>,
}

/// A `Member` as a mathematical value.
pub struct MemberView {
    pub key: Seq<char>,
    pub text: Option<Seq<char>>,
}

impl View for Member {
    type V = MemberView;

    open spec fn view(&self) -> MemberView {
        MemberView {
            key: self.key@,
            text: match self.text {
                Some(t) => Some(t@),
                None => None,
            },
        }
    }
}

/// The members of a list, each as a mathematical value.
pub open spec fn members_of(members: Seq<Member>) -> Seq<MemberView> {
    Seq::new(members.len(), |i: int| members[i]@)
}

/// What the JSON parser makes of `text` read as one object: its members, or
/// the message of the error that the parser reports.
pub uninterp spec fn json_object(text: Seq<char>) -> Result<Seq<MemberView>, Seq<char>>;

/// The JSON text of the object with the one member `key`, whose value is the
/// string `value`.
pub uninterp spec fn json_member(key: Seq<char>, value: Seq<char>) -> Seq<char>;

/// `serde_json::from_str`, reading the text as a `serde_json::Map`. The
/// members that it returns are handed on, a value that is no JSON string
/// without its content; an error is handed on as its message. Both are
/// functions of the text alone, and the contract names them without saying
/// what they are.
#[verifier::external_body]
pub(crate) fn decode_object(text: &str) -> (r: Result<Vec<Member>, String>)
    ensures
        match r {
            Ok(members) => json_object(text@) == Ok::<Seq<MemberView>, Seq<char>>(
                members_of(members@),
            ),
            Err(m) => json_object(text@) == Err::<Seq<MemberView>, Seq<char>>(m@),
        },
{
    match serde_json::from_str::<serde_json::Map<String, serde_json::Value>>(text) {
        Ok(object) => {
            let mut members = Vec::new();
            for (key, value) in object {
                let text = match value {
                    serde_json::Value::String(s) => Some(s),
                    _ => None,
                };
                members.push(Member { key, text });
            }
            Ok(members)
        },
        Err(e) => Err(e.to_string()),
    }
}

/// `serde_json::to_string`, on a map with the one entry from `key` to
/// `value`. Such a map always has a JSON text, which is a function of the
/// two strings alone; the contract names it without saying what it is.
#[verifier::external_body]
pub(crate) fn encode_member(key: &str, value: &str) -> (r: String)
    ensures
        r@ == json_member(key@, value@),
{
    let mut data = std::collections::HashMap::new();
    data.insert(key, value);
    serde_json::to_string(&data).unwrap()
}

/// What the first member with the key `key` holds, if there is one.
pub open spec fn lookup(members: Seq<MemberView>, key: Seq<char>) -> Option<Option<Seq<char>>>
    decreases members.len(),
{
    if members.len() == 0 {
        None
    } else if members[0].key == key {
        Some(members[0].text)
    } else {
        lookup(members.drop_first(), key)
    }
}

/// The string that the member `key` holds, or why there is none.
pub open spec fn field(members: Seq<MemberView>, key: Seq<char>) -> Result<
    Seq<char>,
    RestErrorView,
> {
    match lookup(members, key) {
        Some(Some(text)) => Ok(text),
        Some(None) => Err(
            RestErrorView::Json("invalid type for field `"@ + key + "`, expected a string"@),
        ),
        None => Err(RestErrorView::Json("missing field `"@ + key + "`"@)),
    }
}

/// The string that the member `key` of an object holds. Fails with `Json`
/// where the object has no such member, and where the member is no string.
pub fn string_field(members: &Vec<Member>, key: &str) -> (r: Result<String, RestError>)
    ensures
        same_text(r, field(members_of(members@), key@)),
{
    let wanted = String::from_str(key);
    let ghost all = members_of(members@);
    let mut i: usize = 0;
    assert(all.skip(0) =~= all);
    while i < members.len()
        invariant
            i <= members@.len(),
            all == members_of(members@),
            wanted@ == key@,
            lookup(all, key@) == lookup(all.skip(i as int), key@),
        decreases members@.len() - i,
    {
        proof {
            assert(all.skip(i as int)[0] == members@[i as int]@);
            assert(all.skip(i as int).drop_first() =~= all.skip(i as int + 1));
        }
        if members[i].key == wanted {
            return match &members[i].text {
                Some(text) => Ok(text.clone()),
                None => {
                    let mut m = String::from_str("invalid type for field `");
                    m.append(key);
                    m.append("`, expected a string");
                    Err(RestError::Json(m))
                },
            };
        }
        i = i + 1;
    }
    let mut m = String::from_str("missing field `");
    m.append(key);
    m.append("`");
    Err(RestError::Json(m))
}

} // verus!
