use vstd::prelude::*;

verus! {

broadcast use vstd::std_specs::vec::group_vec_axioms;

/// A JSON number as read from a document: a non-negative integer, a negative
/// integer, or any other number kept as its literal text.
#[derive(Debug, Clone)]
pub enum JsonNumber {
    Unsigned(u64),
    Negative(i64),
    Other(String),
}

/// A JSON document tree. Object members keep their order.
#[derive(Debug)]
pub enum Json {
    Null,
    Bool(bool),
    Number(JsonNumber),
    Str(String),
    Array(Vec<Json>),
    Object(Vec<Member>),
}

/// One `key: value` member of a JSON object.
#[derive(Debug)]
pub struct Member {
    pub key: String,
    pub value: Json,
}

pub enum NumberV {
    Unsigned(nat),
    Negative(int),
    Other(Seq<char>),
}

/// The mathematical value of a JSON document.
pub enum JsonV {
    Null,
    Bool(bool),
    Number(NumberV),
    Str(Seq<char>),
    Array(Seq<JsonV>),
    Object(Seq<(Seq<char>, JsonV)>),
}

impl JsonNumber {
    pub open spec fn view(&self) -> NumberV {
        match self {
            JsonNumber::Unsigned(n) => NumberV::Unsigned(*n as nat),
            JsonNumber::Negative(n) => NumberV::Negative(*n as int),
            JsonNumber::Other(s) => NumberV::Other(s@),
        }
    }
}

impl Json {
    pub open spec fn view(&self) -> JsonV
        decreases self,
    {
        match self {
            Json::Null => JsonV::Null,
            Json::Bool(b) => JsonV::Bool(*b),
            Json::Number(n) => JsonV::Number(n.view()),
            Json::Str(s) => JsonV::Str(s@),
            Json::Array(items) => JsonV::Array(
                Seq::new(items@.len(), |i: int| if 0 <= i < items.len() { items@[i].view() } else { JsonV::Null }),
            ),
            Json::Object(members) => JsonV::Object(
                Seq::new(members@.len(), |i: int| if 0 <= i < members.len() { (members@[i].key@, members@[i].value.view()) } else { (Seq::empty(), JsonV::Null) }),
            ),
        }
    }
}


/// The position of the first member named `key`.
pub open spec fn find_key(ms: Seq<(Seq<char>, JsonV)>, key: Seq<char>) -> Option<int>
    decreases ms.len(),
{
    if ms.len() == 0 {
        None
    } else if ms[0].0 == key {
        Some(0)
    } else {
        match find_key(ms.subrange(1, ms.len() as int), key) {
            Some(i) => Some(i + 1),
            None => None,
        }
    }
}

pub proof fn lemma_find_key(ms: Seq<(Seq<char>, JsonV)>, key: Seq<char>)
    ensures
        find_key(ms, key) matches Some(i) ==> 0 <= i < ms.len() && ms[i].0 == key
            && forall|j: int| 0 <= j < i ==> ms[j].0 != key,
        find_key(ms, key) is None ==> forall|j: int| 0 <= j < ms.len() ==> ms[j].0 != key,
    decreases ms.len(),
{
    if ms.len() > 0 && ms[0].0 != key {
        let rest = ms.subrange(1, ms.len() as int);
        lemma_find_key(rest, key);
        assert forall|j: int| 1 <= j < ms.len() implies ms[j] == rest[j - 1] by {}
    }
}

pub proof fn lemma_find_first(ms: Seq<(Seq<char>, JsonV)>, key: Seq<char>, i: int)
    requires
        0 <= i < ms.len(),
        ms[i].0 == key,
        forall|j: int| 0 <= j < i ==> ms[j].0 != key,
    ensures
        find_key(ms, key) == Some(i),
{
    lemma_find_key(ms, key);
}

pub proof fn lemma_find_none(ms: Seq<(Seq<char>, JsonV)>, key: Seq<char>)
    requires
        forall|j: int| 0 <= j < ms.len() ==> ms[j].0 != key,
    ensures
        find_key(ms, key) is None,
{
    lemma_find_key(ms, key);
}

/// A member's value lies strictly inside the member list.
pub proof fn lemma_member_decreases(ms: Seq<(Seq<char>, JsonV)>, key: Seq<char>)
    ensures
        member_v(ms, key) matches Some(v) ==> decreases_to!(ms => v),
{
    lemma_find_key(ms, key);
    if let Some(i) = find_key(ms, key) {
        assert(decreases_to!(ms => ms[i].1));
    }
}

/// The value of the first member named `key`, if any.
pub open spec fn member_v(ms: Seq<(Seq<char>, JsonV)>, key: Seq<char>) -> Option<JsonV> {
    match find_key(ms, key) {
        Some(i) => if 0 <= i < ms.len() { Some(ms[i].1) } else { None },
        None => None,
    }
}

impl JsonNumber {
    /// A copy of this number.
    pub fn duplicate(&self) -> (r: JsonNumber)
        ensures
            r@ == self@,
    {
        match self {
            JsonNumber::Unsigned(n) => JsonNumber::Unsigned(*n),
            JsonNumber::Negative(n) => JsonNumber::Negative(*n),
            JsonNumber::Other(s) => JsonNumber::Other(s.clone()),
        }
    }
}

impl Json {
    /// A copy of this document.
    pub fn deep_copy(&self) -> (r: Json)
        ensures
            r@ == self@,
        decreases self,
    {
        match self {
            Json::Null => Json::Null,
            Json::Bool(b) => Json::Bool(*b),
            Json::Number(n) => Json::Number(n.duplicate()),
            Json::Str(s) => Json::Str(s.clone()),
            Json::Array(items) => {
                let out = copy_items(items);
                let r = Json::Array(out);
                assert(r@ == self@) by {
                    if let JsonV::Array(a) = r@ {
                        if let JsonV::Array(b) = self@ {
                            assert(a =~= b);
                        }
                    }
                }
                r
            },
            Json::Object(members) => {
                let out = copy_members(members);
                let r = Json::Object(out);
                assert(r@ == self@) by {
                    if let JsonV::Object(a) = r@ {
                        if let JsonV::Object(b) = self@ {
                            assert(a =~= b);
                        }
                    }
                }
                r
            },
        }
    }
}

/// The value of a member list.
pub open spec fn members_view(ms: Seq<Member>) -> Seq<(Seq<char>, JsonV)> {
    Seq::new(ms.len(), |i: int| (ms[i].key@, ms[i].value@))
}

/// The values of a list of documents.
pub open spec fn json_views(s: Seq<Json>) -> Seq<JsonV> {
    Seq::new(s.len(), |i: int| s[i]@)
}

pub proof fn lemma_container_view(j: Json)
    ensures
        j matches Json::Object(ms) ==> j@ == JsonV::Object(members_view(ms@)),
        j matches Json::Array(items) ==> j@ == JsonV::Array(json_views(items@)),
{
    match j {
        Json::Object(ms) => {
            if let JsonV::Object(v) = j@ {
                assert(v =~= members_view(ms@));
            }
        },
        Json::Array(items) => {
            if let JsonV::Array(v) = j@ {
                assert(v =~= json_views(items@));
            }
        },
        _ => {},
    }
}

/// The position of the first member named `key`, stated over the member list's value.
pub fn member_index(members: &Vec<Member>, key: &str) -> (r: Option<usize>)
    ensures
        r matches Some(i) ==> i < members@.len()
            && member_v(members_view(members@), key@) == Some(members@[i as int].value@),
        r is None ==> member_v(members_view(members@), key@) is None,
{
    let r = find_member(members, key);
    proof {
        let ms = members_view(members@);
        match r {
            Some(i) => lemma_find_first(ms, key@, i as int),
            None => lemma_find_none(ms, key@),
        }
    }
    r
}

/// A copy of a list of documents.
pub fn copy_items(items: &Vec<Json>) -> (out: Vec<Json>)
    ensures
        out@.len() == items@.len(),
        forall|k: int| 0 <= k < items@.len() ==> out@[k]@ == items@[k]@,
    decreases items,
{
    let mut out: Vec<Json> = Vec::new();
    let mut i: usize = 0;
    while i < items.len()
        invariant
            i <= items@.len(),
            out@.len() == i,
            forall|k: int| 0 <= k < i ==> out@[k]@ == items@[k]@,
        decreases items@.len() - i,
    {
        proof {
            assert(decreases_to!(items => items[i as int]));
        }
        out.push(items[i].deep_copy());
        i += 1;
    }
    out
}

/// A copy of a member list.
pub fn copy_members(members: &Vec<Member>) -> (out: Vec<Member>)
    ensures
        out@.len() == members@.len(),
        forall|k: int| 0 <= k < members@.len() ==> out@[k].key@ == members@[k].key@
            && out@[k].value@ == members@[k].value@,
    decreases members,
{
    let mut out: Vec<Member> = Vec::new();
    let mut i: usize = 0;
    while i < members.len()
        invariant
            i <= members@.len(),
            out@.len() == i,
            forall|k: int| 0 <= k < i ==> out@[k].key@ == members@[k].key@
                && out@[k].value@ == members@[k].value@,
        decreases members@.len() - i,
    {
        let m = &members[i];
        proof {
            assert(decreases_to!(members => members[i as int].value));
        }
        out.push(Member { key: m.key.clone(), value: m.value.deep_copy() });
        i += 1;
    }
    out
}

/// The position of the first member named `key`.
pub fn find_member(members: &Vec<Member>, key: &str) -> (r: Option<usize>)
    ensures
        r matches Some(i) ==> i < members@.len() && members@[i as int].key@ == key@
            && forall|j: int| 0 <= j < i ==> members@[j].key@ != key@,
        r is None ==> forall|j: int| 0 <= j < members@.len() ==> members@[j].key@ != key@,
{
    let k = key.to_string();
    let mut i: usize = 0;
    while i < members.len()
        invariant
            i <= members@.len(),
            k@ == key@,
            forall|j: int| 0 <= j < i ==> members@[j].key@ != key@,
        decreases members@.len() - i,
    {
        if members[i].key == k {
            return Some(i);
        }
        i += 1;
    }
    None
}

} // verus!
