//! A JSON document as the library reads it: the model's reply envelope and
//! the stored settings object.

use vstd::prelude::*;

verus! {

broadcast use vstd::seq_lib::group_seq_properties;

/// A JSON value. Numbers keep the decimal text they were written with;
/// object members keep their order. Looking a key up takes the first member
/// of that name (serde_json's objects, which this model is filled from,
/// never repeat a key).
#[derive(Debug, PartialEq)]
pub enum JsonValue {
    Null,
    Bool(bool),
    Number(String),
    Text(String),
    Array(Vec<JsonValue>),
    Object(Vec<JsonMember>),
}

/// One `"key": value` member of a JSON object.
#[derive(Debug, PartialEq)]
pub struct JsonMember {
    pub key: String,
    pub value: JsonValue,
}

/// The value of the first member of `members` named `key`.
pub open spec fn member_value(members: Seq<JsonMember>, key: Seq<char>) -> Option<JsonValue>
    decreases members.len(),
{
    if members.len() == 0 {
        None
    } else if members[0].key@ == key {
        Some(members[0].value)
    } else {
        member_value(members.drop_first(), key)
    }
}

/// `v["key"]`: the member's value when `v` is an object that has it
/// (`None` stands for the `null` that JSON indexing gives otherwise).
pub open spec fn at_key(v: Option<JsonValue>, key: Seq<char>) -> Option<JsonValue> {
    match v {
        Some(JsonValue::Object(members)) => member_value(members@, key),
        _ => None,
    }
}

/// `v[i]`: the element when `v` is an array long enough.
pub open spec fn at_index(v: Option<JsonValue>, i: nat) -> Option<JsonValue> {
    match v {
        Some(JsonValue::Array(items)) => if i < items@.len() {
            Some(items@[i as int])
        } else {
            None
        },
        _ => None,
    }
}

/// The text of `v` when it is a JSON string.
pub open spec fn as_text(v: Option<JsonValue>) -> Option<Seq<char>> {
    match v {
        Some(JsonValue::Text(s)) => Some(s@),
        _ => None,
    }
}

/// `r` refers to the value `v` describes.
pub open spec fn refers_to(r: Option<&JsonValue>, v: Option<JsonValue>) -> bool {
    match r {
        Some(x) => v == Some(*x),
        None => v is None,
    }
}

/// Whether a member is not named `key`.
pub open spec fn not_named(key: Seq<char>) -> spec_fn(JsonMember) -> bool {
    |m: JsonMember| m.key@ != key
}

proof fn lemma_member_value_skip(members: Seq<JsonMember>, key: Seq<char>, i: int)
    requires
        0 <= i <= members.len(),
        forall|j: int| 0 <= j < i ==> (#[trigger] members[j]).key@ != key,
    ensures
        member_value(members, key) == member_value(members.skip(i), key),
    decreases i,
{
    if i > 0 {
        lemma_member_value_skip(members, key, i - 1);
        assert(members.skip(i - 1).drop_first() =~= members.skip(i));
    }
}

impl JsonValue {
    /// The value of member `key` when `self` is an object holding it.
    pub fn get(&self, key: &str) -> (r: Option<&JsonValue>)
        ensures
            refers_to(r, at_key(Some(*self), key@)),
    {
        match self {
            JsonValue::Object(members) => {
                let wanted = String::from_str(key);
                let mut i: usize = 0;
                while i < members.len()
                    invariant
                        i <= members@.len(),
                        wanted@ == key@,
                        at_key(Some(*self), key@) == member_value(members@, key@),
                        forall|j: int| 0 <= j < i ==> (#[trigger] members@[j]).key@ != key@,
                    decreases members@.len() - i,
                {
                    if members[i].key == wanted {
                        proof {
                            lemma_member_value_skip(members@, key@, i as int);
                            assert(members@.skip(i as int)[0] == members@[i as int]);
                        }
                        return Some(&members[i].value);
                    }
                    i = i + 1;
                }
                proof {
                    lemma_member_value_skip(members@, key@, i as int);
                }
                None
            },
            _ => None,
        }
    }

    /// Element `i` when `self` is an array that long.
    pub fn item(&self, i: usize) -> (r: Option<&JsonValue>)
        ensures
            refers_to(r, at_index(Some(*self), i as nat)),
    {
        match self {
            JsonValue::Array(items) => {
                if i < items.len() {
                    Some(&items[i])
                } else {
                    None
                }
            },
            _ => None,
        }
    }

    /// The text of `self` when it is a JSON string.
    pub fn text(&self) -> (r: Option<&String>)
        ensures
            match r {
                Some(s) => as_text(Some(*self)) == Some(s@),
                None => as_text(Some(*self)) is None,
            },
    {
        match self {
            JsonValue::Text(s) => Some(s),
            _ => None,
        }
    }
}

/// Removes every member named `key`, keeping the others in order.
pub fn remove_member(members: &mut Vec<JsonMember>, key: &str)
    ensures
        final(members)@ == old(members)@.filter(not_named(key@)),
{
    let wanted = String::from_str(key);
    let ghost original = members@;
    let ghost p = not_named(key@);
    let ghost mut j: int = 0;
    let mut i: usize = 0;
    assert(members@.take(0) =~= original.take(0).filter(p)) by {
        reveal(Seq::filter);
    }
    while i < members.len()
        invariant
            wanted@ == key@,
            p == not_named(key@),
            i <= members@.len(),
            0 <= j <= original.len(),
            members@.take(i as int) == original.take(j).filter(p),
            members@.skip(i as int) == original.skip(j),
        decreases members@.len() - i,
    {
        assert(members@.skip(i as int).len() > 0);
        assert(j < original.len());
        assert(original.skip(j)[0] == original[j]);
        assert(members@.skip(i as int)[0] == members@[i as int]);
        assert(original.take(j + 1) =~= original.take(j).push(original[j]));
        proof {
            original.take(j).lemma_filter_push(original[j], p);
        }
        if members[i].key == wanted {
            let ghost before = members@;
            members.remove(i);
            assert(members@.take(i as int) =~= before.take(i as int));
            assert(members@.skip(i as int) =~= before.skip(i as int + 1));
            assert(original.skip(j + 1) =~= original.skip(j).drop_first());
        } else {
            let ghost before = members@;
            assert(before.take(i as int + 1) =~= before.take(i as int).push(before[i as int]));
            assert(before.skip(i as int + 1) =~= before.skip(i as int).drop_first());
            assert(original.skip(j + 1) =~= original.skip(j).drop_first());
            i = i + 1;
        }
        proof {
            j = j + 1;
        }
    }
    assert(members@.take(i as int) =~= members@);
    assert(original.skip(j).len() == 0);
    assert(original.take(j) =~= original);
}

} // verus!
