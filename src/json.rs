//! A loosely typed JSON document, as the remote API sends it, and lookups in it.
use vstd::prelude::*;

verus! {

/// A JSON value.
///
/// Numbers that are integers are held exactly; any other number keeps the
/// text it was written as.
#[derive(Debug)]
pub enum Json {
    Null,
    Bool(bool),
    Int(i128),
    Decimal(String),
    Str(String),
    Array(Vec<Json>),
    /// The members of an object, in document order.
    Object(Vec<(String, Json)>),
}

/// The value of the first member named `key` at or after position `i`.
pub open spec fn lookup_from(members: Seq<(String, Json)>, key: Seq<char>, i: int) -> Option<Json>
    decreases members.len() - i,
{
    if i < 0 || i >= members.len() {
        None
    } else if members[i].0@ == key {
        Some(members[i].1)
    } else {
        lookup_from(members, key, i + 1)
    }
}

/// The value of the first member named `key`.
pub open spec fn lookup(members: Seq<(String, Json)>, key: Seq<char>) -> Option<Json> {
    lookup_from(members, key, 0)
}

/// The member `key` of `v`, where `v` is an object that has one.
pub open spec fn member(v: Json, key: Seq<char>) -> Option<Json> {
    match v {
        Json::Object(members) => lookup(members@, key),
        _ => None,
    }
}

/// The text of the member `key` of `v`, where that member is a string.
pub open spec fn text_member(v: Json, key: Seq<char>) -> Option<Seq<char>> {
    match member(v, key) {
        Some(Json::Str(s)) => Some(s@),
        _ => None,
    }
}

/// Whether `v` is an object.
pub open spec fn is_object(v: Json) -> bool {
    v is Object
}

impl Json {
    /// The member `key` of this value, where it is an object that has one.
    pub fn get(&self, key: &str) -> (r: Option<&Json>)
        ensures
            match r {
                Some(x) => member(*self, key@) == Some(*x),
                None => member(*self, key@) is None,
            },
    {
        match self {
            Json::Object(members) => {
                let wanted = key.to_owned();
                let mut i: usize = 0;
                while i < members.len()
                    invariant
                        0 <= i <= members@.len(),
                        wanted@ == key@,
                        member(*self, key@) == lookup(members@, key@),
                        lookup(members@, key@) == lookup_from(members@, key@, i as int),
                    decreases members@.len() - i,
                {
                    if members[i].0 == wanted {
                        assert(lookup_from(members@, key@, i as int) == Some(members@[i as int].1));
                        let found = &members[i].1;
                        return Some(found);
                    }
                    i = i + 1;
                }
                None
            },
            _ => None,
        }
    }

    /// The text of the member `key`, where it is a string.
    pub fn get_str(&self, key: &str) -> (r: Option<&String>)
        ensures
            match r {
                Some(s) => text_member(*self, key@) == Some(s@),
                None => text_member(*self, key@) is None,
            },
    {
        match self.get(key) {
            Some(Json::Str(s)) => Some(s),
            _ => None,
        }
    }

    /// Whether this value is an object.
    pub fn is_object(&self) -> (r: bool)
        ensures
            r == is_object(*self),
    {
        match self {
            Json::Object(_) => true,
            _ => false,
        }
    }
}

} // verus!

verus! {

/// Whether the text `s` is `lit`.
pub fn text_is(s: &String, lit: &str) -> (r: bool)
    ensures
        r == (s@ == lit@),
{
    *s == lit.to_owned()
}

/// A string value.
pub fn json_text(s: &str) -> (r: Json)
    ensures
        r is Str && r->Str_0@ == s@,
{
    Json::Str(s.to_owned())
}

} // verus!

verus! {

/// The value of the member `key` is the one at `j` where no member before
/// `j` has that name.
pub proof fn lemma_lookup_at(members: Seq<(String, Json)>, key: Seq<char>, j: int)
    requires
        0 <= j < members.len(),
        members[j].0@ == key,
        forall|i: int| 0 <= i < j ==> (#[trigger] members[i]).0@ != key,
    ensures
        lookup(members, key) == Some(members[j].1),
{
    lemma_lookup_from_at(members, key, j, 0);
}

proof fn lemma_lookup_from_at(members: Seq<(String, Json)>, key: Seq<char>, j: int, i: int)
    requires
        0 <= i <= j < members.len(),
        members[j].0@ == key,
        forall|k: int| 0 <= k < j ==> (#[trigger] members[k]).0@ != key,
    ensures
        lookup_from(members, key, i) == Some(members[j].1),
    decreases j - i,
{
    if i < j {
        lemma_lookup_from_at(members, key, j, i + 1);
    }
}

} // verus!

verus! {

/// No member is named `key`: the lookup finds nothing.
pub proof fn lemma_lookup_absent(members: Seq<(String, Json)>, key: Seq<char>)
    requires
        forall|i: int| 0 <= i < members.len() ==> (#[trigger] members[i]).0@ != key,
    ensures
        lookup(members, key) is None,
{
    lemma_lookup_from_absent(members, key, 0);
}

proof fn lemma_lookup_from_absent(members: Seq<(String, Json)>, key: Seq<char>, i: int)
    requires
        0 <= i <= members.len(),
        forall|k: int| 0 <= k < members.len() ==> (#[trigger] members[k]).0@ != key,
    ensures
        lookup_from(members, key, i) is None,
    decreases members.len() - i,
{
    if i < members.len() {
        lemma_lookup_from_absent(members, key, i + 1);
    }
}

} // verus!
