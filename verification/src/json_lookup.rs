//! What a JSON object says under a name.

use vstd::prelude::*;

use crate::json::{Json, optional_text};

verus! {

/// Whether the member at a place has the given name and value, and no other member that name.
pub open spec fn member_at(
    members: Seq<(Seq<char>, Json)>,
    i: int,
    name: Seq<char>,
    value: Json,
) -> bool {
    &&& 0 <= i < members.len()
    &&& members[i].0 == name
    &&& members[i].1 == value
    &&& forall|j: int| 0 <= j < members.len() && j != i ==> (#[trigger] members[j]).0 != name
}

/// Whether an object has one member of the given name, with the given value. Whoever looks the
/// name up in the object finds that value, whichever way they look.
pub open spec fn says(object: Json, name: Seq<char>, value: Json) -> bool {
    object matches Json::Object(members) && exists|i: int| member_at(members, i, name, value)
}

/// Whether a value is an object with the given number of members.
pub open spec fn has_members(object: Json, count: nat) -> bool {
    object matches Json::Object(members) && members.len() == count
}

/// Whether a value is an array of the given length.
pub open spec fn is_array(value: Json, count: nat) -> bool {
    value matches Json::Array(items) && items.len() == count
}

/// An object says one thing at most under a name.
pub proof fn law_says_one_thing(object: Json, name: Seq<char>, a: Json, b: Json)
    requires
        says(object, name, a),
        says(object, name, b),
    ensures
        a == b,
{
    let members = object->Object_0;
    let i = choose|i: int| member_at(members, i, name, a);
    let j = choose|j: int| member_at(members, j, name, b);
    assert(i == j);
}

/// What is absent is `null`, and what is there is its text, even if that is empty.
pub proof fn law_absent_is_null(text: Option<String>)
    ensures
        text is None <==> optional_text(text) == Json::Null,
        text matches Some(s) ==> optional_text(text) == Json::Text(s@),
{
}

} // verus!
