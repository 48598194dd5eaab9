use vstd::prelude::*;

verus! {

/// The mathematical value of a JSON document: strings are sequences of
/// characters, objects keep their members in order.
pub enum Json {
    Null,
    Bool(bool),
    Number(Seq<char>),
    Str(Seq<char>),
    Array(Seq<Json>),
    Object(Seq<(Seq<char>, Json)>),
}

/// A JSON value as the tool schemas of MCP servers carry it.
/// Numbers keep their textual form; object members keep their order.
#[derive(Debug)]
pub enum JsonValue {
    Null,
    Bool(bool),
    Number(String),
    String(String),
    Array(Vec<JsonValue>),
    Object(Vec<(String, JsonValue)>),
}

pub open spec fn json_items(items: Seq<JsonValue>) -> Seq<Json>
    decreases items,
{
    if items.len() == 0 {
        Seq::empty()
    } else {
        json_items(items.drop_last()).push(json_view(items.last()))
    }
}

pub open spec fn json_members(members: Seq<(String, JsonValue)>) -> Seq<(Seq<char>, Json)>
    decreases members,
{
    if members.len() == 0 {
        Seq::empty()
    } else {
        json_members(members.drop_last()).push((members.last().0@, json_view(members.last().1)))
    }
}

pub open spec fn json_view(v: JsonValue) -> Json
    decreases v,
{
    match v {
        JsonValue::Null => Json::Null,
        JsonValue::Bool(b) => Json::Bool(b),
        JsonValue::Number(n) => Json::Number(n@),
        JsonValue::String(s) => Json::Str(s@),
        JsonValue::Array(items) => Json::Array(json_items(items@)),
        JsonValue::Object(members) => Json::Object(json_members(members@)),
    }
}

impl View for JsonValue {
    type V = Json;

    open spec fn view(&self) -> Json {
        json_view(*self)
    }
}

} // verus!

verus! {

/// The member of `key` in a list of object members: the first one that has it.
pub open spec fn member_named(members: Seq<(Seq<char>, Json)>, key: Seq<char>) -> Option<Json>
    decreases members.len(),
{
    if members.len() == 0 {
        None
    } else if members[0].0 == key {
        Some(members[0].1)
    } else {
        member_named(members.drop_first(), key)
    }
}

impl Json {
    /// `value.get(key)`: the member of an object, nothing for other values.
    pub open spec fn get(self, key: Seq<char>) -> Option<Json> {
        match self {
            Json::Object(members) => member_named(members, key),
            _ => None,
        }
    }

    pub open spec fn as_str(self) -> Option<Seq<char>> {
        match self {
            Json::Str(s) => Some(s),
            _ => None,
        }
    }

    pub open spec fn as_array(self) -> Option<Seq<Json>> {
        match self {
            Json::Array(items) => Some(items),
            _ => None,
        }
    }

    pub open spec fn as_object(self) -> Option<Seq<(Seq<char>, Json)>> {
        match self {
            Json::Object(members) => Some(members),
            _ => None,
        }
    }

    /// The string held by member `key`, if the value is an object and that member is a string.
    pub open spec fn get_str(self, key: Seq<char>) -> Option<Seq<char>> {
        match self.get(key) {
            Some(v) => v.as_str(),
            None => None,
        }
    }
}

pub proof fn lemma_json_items(items: Seq<JsonValue>)
    ensures
        json_items(items).len() == items.len(),
        forall|i: int| 0 <= i < items.len() ==> #[trigger] json_items(items)[i] == json_view(items[i]),
    decreases items.len(),
{
    if items.len() > 0 {
        lemma_json_items(items.drop_last());
        assert forall|i: int| 0 <= i < items.len() implies #[trigger] json_items(items)[i] == json_view(items[i]) by {
            if i < items.len() - 1 {
                assert(items.drop_last()[i] == items[i]);
            }
        }
    }
}

pub proof fn lemma_json_members(members: Seq<(String, JsonValue)>)
    ensures
        json_members(members).len() == members.len(),
        forall|i: int| 0 <= i < members.len() ==> #[trigger] json_members(members)[i] == (members[i].0@, json_view(members[i].1)),
    decreases members.len(),
{
    if members.len() > 0 {
        lemma_json_members(members.drop_last());
        assert forall|i: int| 0 <= i < members.len() implies #[trigger] json_members(members)[i] == (members[i].0@, json_view(members[i].1)) by {
            if i < members.len() - 1 {
                assert(members.drop_last()[i] == members[i]);
            }
        }
    }
}

/// When no member before `i` has `key`, looking it up in the whole list is
/// looking it up from `i` on.
pub proof fn lemma_member_named_skip(members: Seq<(Seq<char>, Json)>, key: Seq<char>, i: int)
    requires
        0 <= i <= members.len(),
        forall|j: int| 0 <= j < i ==> members[j].0 != key,
    ensures
        member_named(members, key) == member_named(members.skip(i), key),
    decreases i,
{
    if i > 0 {
        assert(members.drop_first().skip(i - 1) =~= members.skip(i));
        lemma_member_named_skip(members.drop_first(), key, i - 1);
    } else {
        assert(members.skip(0) =~= members);
    }
}

/// Compares the characters of two strings.
pub fn str_eq(a: &str, b: &str) -> (r: bool)
    ensures
        r == (a@ == b@),
{
    let n = a.unicode_len();
    if n != b.unicode_len() {
        return false;
    }
    let mut i: usize = 0;
    while i < n
        invariant
            n == a@.len(),
            n == b@.len(),
            i <= n,
            forall|j: int| 0 <= j < i ==> a@[j] == b@[j],
        decreases n - i,
    {
        if a.get_char(i) != b.get_char(i) {
            return false;
        }
        i = i + 1;
    }
    assert(a@ =~= b@);
    true
}

impl JsonValue {
    /// The member `key` of an object (the first one, should a key repeat);
    /// `None` for a missing member or a value that is not an object.
    pub fn get(&self, key: &str) -> (r: Option<&JsonValue>)
        ensures
            r matches Some(v) ==> self@.get(key@) == Some(v@),
            r is None ==> self@.get(key@) is None,
    {
        match self {
            JsonValue::Object(members) => {
                proof {
                    lemma_json_members(members@);
                }
                let ghost ms = json_members(members@);
                assert(self@ == Json::Object(ms));
                let mut i: usize = 0;
                while i < members.len()
                    invariant
                        i <= members.len(),
                        ms == json_members(members@),
                        self@ == Json::Object(ms),
                        ms.len() == members@.len(),
                        forall|k: int| 0 <= k < members@.len() ==> #[trigger] ms[k] == (members@[k].0@, json_view(members@[k].1)),
                        forall|j: int| 0 <= j < i ==> ms[j].0 != key@,
                    decreases members.len() - i,
                {
                    if str_eq(members[i].0.as_str(), key) {
                        proof {
                            lemma_member_named_skip(ms, key@, i as int);
                            assert(ms.skip(i as int)[0] == ms[i as int]);
                        }
                        return Some(&members[i].1);
                    }
                    i = i + 1;
                }
                proof {
                    lemma_member_named_skip(ms, key@, i as int);
                }
                None
            },
            _ => None,
        }
    }

    pub fn as_str(&self) -> (r: Option<&str>)
        ensures
            r matches Some(s) ==> self@.as_str() == Some(s@),
            r is None ==> self@.as_str() is None,
    {
        match self {
            JsonValue::String(s) => Some(s.as_str()),
            _ => None,
        }
    }

    pub fn as_array(&self) -> (r: Option<&Vec<JsonValue>>)
        ensures
            r matches Some(items) ==> self@.as_array() == Some(json_items(items@)),
            r is None ==> self@.as_array() is None,
    {
        match self {
            JsonValue::Array(items) => Some(items),
            _ => None,
        }
    }

    pub fn as_object(&self) -> (r: Option<&Vec<(String, JsonValue)>>)
        ensures
            r matches Some(members) ==> self@.as_object() == Some(json_members(members@)),
            r is None ==> self@.as_object() is None,
    {
        match self {
            JsonValue::Object(members) => Some(members),
            _ => None,
        }
    }

    /// The string held by member `key`.
    pub fn get_str(&self, key: &str) -> (r: Option<&str>)
        ensures
            r matches Some(s) ==> self@.get_str(key@) == Some(s@),
            r is None ==> self@.get_str(key@) is None,
    {
        match self.get(key) {
            Some(v) => v.as_str(),
            None => None,
        }
    }

    /// A copy of the whole value.
    pub fn deep_copy(&self) -> (r: JsonValue)
        ensures
            r@ == self@,
        decreases self,
    {
        match self {
            JsonValue::Null => JsonValue::Null,
            JsonValue::Bool(b) => JsonValue::Bool(*b),
            JsonValue::Number(n) => JsonValue::Number(n.clone()),
            JsonValue::String(s) => JsonValue::String(s.clone()),
            JsonValue::Array(items) => {
                let mut out: Vec<JsonValue> = Vec::new();
                let mut i: usize = 0;
                while i < items.len()
                    invariant
                        *self == JsonValue::Array(*items),
                        i <= items@.len(),
                        out@.len() == i,
                        forall|k: int| 0 <= k < i ==> #[trigger] out@[k]@ == items@[k]@,
                    decreases items.len() - i,
                {
                    assert(decreases_to!(*self => (*self)->Array_0));
                    assert(decreases_to!((*self)->Array_0 => items@));
                    assert(decreases_to!(items@ => items@[i as int]));
                    let c = items[i].deep_copy();
                    out.push(c);
                    i = i + 1;
                }
                proof {
                    lemma_json_items(items@);
                    lemma_json_items(out@);
                    assert forall|k: int| 0 <= k < out@.len() implies #[trigger] json_items(out@)[k] == json_items(items@)[k] by {
                        assert(out@[k]@ == items@[k]@);
                    }
                    assert(json_items(out@) =~= json_items(items@));
                }
                JsonValue::Array(out)
            },
            JsonValue::Object(members) => {
                let mut out: Vec<(String, JsonValue)> = Vec::new();
                let mut i: usize = 0;
                while i < members.len()
                    invariant
                        *self == JsonValue::Object(*members),
                        i <= members@.len(),
                        out@.len() == i,
                        forall|k: int| 0 <= k < i ==> #[trigger] out@[k].0@ == members@[k].0@ && out@[k].1@ == members@[k].1@,
                    decreases members.len() - i,
                {
                    assert(decreases_to!(*self => (*self)->Object_0));
                    assert(decreases_to!((*self)->Object_0 => members@));
                    assert(decreases_to!(members@ => members@[i as int]));
                    assert(decreases_to!(members@[i as int] => members@[i as int].1));
                    let k = members[i].0.clone();
                    let v = members[i].1.deep_copy();
                    out.push((k, v));
                    i = i + 1;
                }
                proof {
                    lemma_json_members(members@);
                    lemma_json_members(out@);
                    assert forall|k: int| 0 <= k < out@.len() implies #[trigger] json_members(out@)[k] == json_members(members@)[k] by {
                        assert(out@[k].0@ == members@[k].0@ && out@[k].1@ == members@[k].1@);
                    }
                    assert(json_members(out@) =~= json_members(members@));
                }
                JsonValue::Object(out)
            },
        }
    }

    pub fn is_null(&self) -> (r: bool)
        ensures
            r == (self@ is Null),
    {
        match self {
            JsonValue::Null => true,
            _ => false,
        }
    }

    pub fn is_object(&self) -> (r: bool)
        ensures
            r == (self@ is Object),
    {
        match self {
            JsonValue::Object(_) => true,
            _ => false,
        }
    }
}


/// The string value `s`.
pub fn json_str(s: &str) -> (r: JsonValue)
    ensures
        r@ == Json::Str(s@),
{
    JsonValue::String(String::from_str(s))
}

/// Appends member `key` to a list of object members.
pub fn push_member(members: &mut Vec<(String, JsonValue)>, key: &str, value: JsonValue)
    ensures
        json_members(final(members)@) == json_members(old(members)@).push((key@, value@)),
{
    let ghost v = value@;
    members.push((String::from_str(key), value));
    assert(final(members)@.drop_last() =~= old(members)@);
}

/// Appends an item to a list of array items.
pub fn push_item(items: &mut Vec<JsonValue>, value: JsonValue)
    ensures
        json_items(final(items)@) == json_items(old(items)@).push(value@),
{
    items.push(value);
    assert(final(items)@.drop_last() =~= old(items)@);
}

/// Object members have distinct keys.
pub open spec fn distinct_keys(members: Seq<(Seq<char>, Json)>) -> bool {
    forall|i: int, j: int| 0 <= i < j < members.len() ==> members[i].0 != members[j].0
}

/// The members after `key` is set to `value`, as a JSON map's `insert` does:
/// an existing member keeps its place and takes the new value; a new key goes last.
pub open spec fn with_member(members: Seq<(Seq<char>, Json)>, key: Seq<char>, value: Json) -> Seq<(Seq<char>, Json)> {
    if exists|i: int| 0 <= i < members.len() && members[i].0 == key {
        members.update(choose|i: int| 0 <= i < members.len() && members[i].0 == key, (key, value))
    } else {
        members.push((key, value))
    }
}

/// A well-formed JSON value: its objects, at every depth, name each member
/// once, as a JSON document's objects do.
pub open spec fn json_wf(j: Json) -> bool
    decreases j,
{
    match j {
        Json::Array(items) => forall|i: int| 0 <= i < items.len() ==> json_wf(#[trigger] items[i]),
        Json::Object(members) => distinct_keys(members)
            && forall|i: int| 0 <= i < members.len() ==> json_wf(#[trigger] members[i].1),
        _ => true,
    }
}

/// In an object whose members are named once, looking a member up by its
/// name finds that member.
pub proof fn lemma_distinct_member(members: Seq<(Seq<char>, Json)>, i: int)
    requires
        distinct_keys(members),
        0 <= i < members.len(),
    ensures
        member_named(members, members[i].0) == Some(members[i].1),
{
    lemma_member_named_skip(members, members[i].0, i);
    assert(members.skip(i)[0] == members[i]);
}

/// Sets member `key` of an object to `value` (see `with_member`).
pub fn object_insert(members: &mut Vec<(String, JsonValue)>, key: String, value: JsonValue)
    requires
        distinct_keys(json_members(old(members)@)),
    ensures
        json_members(final(members)@) == with_member(json_members(old(members)@), key@, value@),
        distinct_keys(json_members(final(members)@)),
        json_wf(Json::Object(json_members(old(members)@))) && json_wf(value@) ==>
            json_wf(Json::Object(json_members(final(members)@))),
{
    let ghost old_ms = json_members(members@);
    proof { lemma_json_members(members@); }
    let mut i: usize = 0;
    while i < members.len()
        invariant
            i <= members@.len(),
            old_ms == json_members(members@),
            members@ == old(members)@,
            old_ms.len() == members@.len(),
            forall|k: int| 0 <= k < members@.len() ==> #[trigger] old_ms[k] == (members@[k].0@, json_view(members@[k].1)),
            forall|j: int| 0 <= j < i ==> old_ms[j].0 != key@,
            distinct_keys(old_ms),
        decreases members.len() - i,
    {
        if str_eq(members[i].0.as_str(), key.as_str()) {
            assert(old_ms[i as int].0 == key@);
            let ghost kv = key@;
            let ghost vv = value@;
            members.set(i, (key, value));
            proof {
                lemma_json_members(members@);
                let c = choose|c: int| 0 <= c < old_ms.len() && old_ms[c].0 == kv;
                assert(0 <= c < old_ms.len() && old_ms[c].0 == kv);
                if c > i as int {
                    assert(old_ms[i as int].0 != old_ms[c].0);
                }
                assert(c == i as int);
                assert(with_member(old_ms, kv, vv) == old_ms.update(i as int, (kv, vv)));
                assert(json_members(members@) =~= old_ms.update(i as int, (kv, vv)));
                let new_ms = json_members(members@);
                if json_wf(Json::Object(old_ms)) && json_wf(vv) {
                    assert forall|k: int| 0 <= k < new_ms.len() implies json_wf(#[trigger] new_ms[k].1) by {
                        if k != i as int {
                            assert(new_ms[k] == old_ms[k]);
                        }
                    }
                }
            }
            return;
        }
        i = i + 1;
    }
    members.push((key, value));
    proof {
        lemma_json_members(members@);
        assert(json_members(members@) =~= old_ms.push((key@, json_view(value))));
        let new_ms = json_members(members@);
        if json_wf(Json::Object(old_ms)) && json_wf(json_view(value)) {
            assert forall|k: int| 0 <= k < new_ms.len() implies json_wf(#[trigger] new_ms[k].1) by {
                if k < old_ms.len() {
                    assert(new_ms[k] == old_ms[k]);
                }
            }
        }
    }
}

} // verus!
