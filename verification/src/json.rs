//! A JSON value held as plain data, with a view that is a mathematical value.
//!
//! The library builds and reads JSON (tool parameter schemas, the extra body of a
//! request, tool arguments and tool results) in this form; reading JSON text into it
//! and writing it out as text is the job of serde_json, at the edge of the program.

use vstd::prelude::*;

verus! {

/// A JSON number: serde_json keeps integers exactly and other numbers as floats;
/// here a float is kept as its text.
#[derive(Debug, PartialEq)]
pub enum JsonNumber {
    PosInt(u64),
    NegInt(i64),
    Float(String),
}

impl Clone for JsonNumber {
    fn clone(&self) -> (r: Self)
        ensures
            r == *self,
    {
        match self {
            JsonNumber::PosInt(n) => JsonNumber::PosInt(*n),
            JsonNumber::NegInt(n) => JsonNumber::NegInt(*n),
            JsonNumber::Float(t) => JsonNumber::Float(t.clone()),
        }
    }
}

/// A JSON value. The members of an object keep their order.
#[derive(Debug, PartialEq)]
pub enum Json {
    Null,
    Bool(bool),
    Number(JsonNumber),
    Str(String),
    Array(Vec<Json>),
    Object(Vec<(String, Json)>),
}

/// The mathematical value of a JSON value.
#[verifier::ext_equal]
pub enum JsonView {
    Null,
    Bool(bool),
    Number(JsonNumber),
    Str(Seq<char>),
    Array(Seq<JsonView>),
    Object(Seq<(Seq<char>, JsonView)>),
}

impl Json {
    /// The mathematical value of this JSON value.
    pub open spec fn value(&self) -> JsonView
        decreases self,
    {
        match self {
            Json::Null => JsonView::Null,
            Json::Bool(b) => JsonView::Bool(*b),
            Json::Number(n) => JsonView::Number(*n),
            Json::Str(s) => JsonView::Str(s@),
            Json::Array(v) => JsonView::Array(
                Seq::new(
                    v@.len(),
                    |i: int|
                        if 0 <= i < v@.len() {
                            v@[i].value()
                        } else {
                            JsonView::Null
                        },
                ),
            ),
            Json::Object(v) => JsonView::Object(
                Seq::new(
                    v@.len(),
                    |i: int|
                        if 0 <= i < v@.len() {
                            (v@[i].0@, v@[i].1.value())
                        } else {
                            (Seq::empty(), JsonView::Null)
                        },
                ),
            ),
        }
    }
}

impl View for Json {
    type V = JsonView;

    open spec fn view(&self) -> JsonView {
        self.value()
    }
}

/// `i` is the first position of `key` among the members.
pub open spec fn is_first_key(members: Seq<(Seq<char>, JsonView)>, key: Seq<char>, i: int) -> bool {
    &&& 0 <= i < members.len()
    &&& members[i].0 == key
    &&& forall|j: int| 0 <= j < i ==> members[j].0 != key
}

/// The value of the first member named `key`, if any.
pub open spec fn member(members: Seq<(Seq<char>, JsonView)>, key: Seq<char>) -> Option<JsonView> {
    if exists|i: int| is_first_key(members, key, i) {
        Some(members[choose|i: int| is_first_key(members, key, i)].1)
    } else {
        None
    }
}

/// The members after `key` is set to `value`: the first member of that name gets the
/// new value, or a new member is added at the end.
pub open spec fn with_member(
    members: Seq<(Seq<char>, JsonView)>,
    key: Seq<char>,
    value: JsonView,
) -> Seq<(Seq<char>, JsonView)> {
    if exists|i: int| is_first_key(members, key, i) {
        members.update(choose|i: int| is_first_key(members, key, i), (key, value))
    } else {
        members.push((key, value))
    }
}

pub proof fn lemma_first_key_unique(members: Seq<(Seq<char>, JsonView)>, key: Seq<char>, i: int, j: int)
    requires
        is_first_key(members, key, i),
        is_first_key(members, key, j),
    ensures
        i == j,
{
}

impl JsonView {
    /// The value of the member `key` of an object; nothing for other values.
    pub open spec fn get(self, key: Seq<char>) -> Option<JsonView> {
        match self {
            JsonView::Object(members) => member(members, key),
            _ => None,
        }
    }

    /// The text of a JSON string.
    pub open spec fn as_str(self) -> Option<Seq<char>> {
        match self {
            JsonView::Str(s) => Some(s),
            _ => None,
        }
    }
}

/// The view of an optional reference to a JSON value.
pub open spec fn opt_view(o: Option<&Json>) -> Option<JsonView> {
    match o {
        Some(j) => Some(j@),
        None => None,
    }
}

/// The position of the first member named `key`, if any.
fn find_member(members: &Vec<(String, Json)>, key: &String) -> (r: Option<usize>)
    ensures
        match r {
            Some(i) => is_first_key(Json::Object(*members)@->Object_0, key@, i as int),
            None => forall|i: int| 0 <= i < members@.len() ==> members@[i].0@ != key@,
        },
{
    let ghost mv = Json::Object(*members)@->Object_0;
    let mut i: usize = 0;
    while i < members.len()
        invariant
            i <= members.len(),
            mv == Json::Object(*members)@->Object_0,
            forall|j: int| 0 <= j < i ==> members@[j].0@ != key@,
        decreases members.len() - i,
    {
        if members[i].0 == *key {
            assert(mv[i as int].0 == members@[i as int].0@);
            assert forall|j: int| 0 <= j < i implies mv[j].0 != key@ by {
                assert(mv[j].0 == members@[j].0@);
            }
            return Some(i);
        }
        i = i + 1;
    }
    None
}

impl Clone for Json {
    fn clone(&self) -> (r: Self)
        ensures
            r@ == self@,
        decreases self,
    {
        match self {
            Json::Null => Json::Null,
            Json::Bool(b) => Json::Bool(*b),
            Json::Number(n) => Json::Number(n.clone()),
            Json::Str(s) => Json::Str(s.clone()),
            Json::Array(v) => {
                let mut out: Vec<Json> = Vec::new();
                let mut i: usize = 0;
                while i < v.len()
                    invariant
                        i <= v.len(),
                        *self == Json::Array(*v),
                        out@.len() == i,
                        forall|j: int| #![trigger out@[j]] 0 <= j < i ==> out@[j]@ == v@[j]@,
                    decreases v.len() - i,
                {
                    proof {
                        assert(decreases_to!(v => v[i as int]));
                        assert(decreases_to!(self => self->Array_0));
                    }
                    let c = v[i].clone();
                    out.push(c);
                    i = i + 1;
                }
                let r = Json::Array(out);
                assert(r@->Array_0 =~= self@->Array_0);
                r
            },
            Json::Object(v) => {
                let mut out: Vec<(String, Json)> = Vec::new();
                let mut i: usize = 0;
                while i < v.len()
                    invariant
                        i <= v.len(),
                        *self == Json::Object(*v),
                        out@.len() == i,
                        forall|j: int|
                            #![trigger out@[j]]
                            0 <= j < i ==> out@[j].0@ == v@[j].0@ && out@[j].1@ == v@[j].1@,
                    decreases v.len() - i,
                {
                    proof {
                        assert(decreases_to!(v => v[i as int]));
                        assert(decreases_to!(v[i as int] => v[i as int].1));
                        assert(decreases_to!(self => self->Object_0));
                    }
                    let k = v[i].0.clone();
                    let c = v[i].1.clone();
                    out.push((k, c));
                    i = i + 1;
                }
                let r = Json::Object(out);
                assert(r@->Object_0 =~= self@->Object_0);
                r
            },
        }
    }
}

impl Json {
    /// The value of the member `key`, where this is an object that has one.
    pub fn get<'a>(&'a self, key: &String) -> (r: Option<&'a Json>)
        ensures
            opt_view(r) == self@.get(key@),
    {
        match self {
            Json::Object(members) => {
                let ghost mv = self@->Object_0;
                match find_member(members, key) {
                    Some(i) => {
                        proof {
                            lemma_first_key_unique(mv, key@, i as int, choose|k: int| is_first_key(mv, key@, k));
                        }
                        Some(&members[i].1)
                    },
                    None => {
                        assert forall|k: int| !is_first_key(mv, key@, k) by {
                            if 0 <= k < mv.len() {
                                assert(mv[k].0 == members@[k].0@);
                            }
                        }
                        None
                    },
                }
            },
            _ => None,
        }
    }

    /// The text, where this is a JSON string.
    pub fn as_str<'a>(&'a self) -> (r: Option<&'a String>)
        ensures
            match r {
                Some(s) => self@.as_str() == Some(s@),
                None => self@.as_str() is None,
            },
    {
        match self {
            Json::Str(s) => Some(s),
            _ => None,
        }
    }

    /// Sets the member `key` of an object to `value`; leaves any other value as it is
    /// and says whether it was an object.
    pub fn insert(&mut self, key: String, value: Json) -> (is_object: bool)
        ensures
            is_object == old(self)@ is Object,
            is_object ==> final(self)@ == JsonView::Object(
                with_member(old(self)@->Object_0, key@, value@),
            ),
            !is_object ==> final(self)@ == old(self)@,
    {
        match self {
            Json::Object(members) => {
                let ghost old_mv = old(self)@->Object_0;
                let ghost kv = key@;
                let ghost vv = value@;
                match find_member(members, &key) {
                    Some(i) => {
                        proof {
                            lemma_first_key_unique(old_mv, kv, i as int, choose|k: int| is_first_key(old_mv, kv, k));
                        }
                        members.set(i, (key, value));
                        assert(Json::Object(*members)@->Object_0 =~= old_mv.update(i as int, (kv, vv)));
                    },
                    None => {
                        assert forall|k: int| !is_first_key(old_mv, kv, k) by {
                            if 0 <= k < old_mv.len() {
                                assert(old_mv[k].0 == old(self)@->Object_0[k].0);
                            }
                        }
                        members.push((key, value));
                        assert(Json::Object(*members)@->Object_0 =~= old_mv.push((kv, vv)));
                    },
                }
                true
            },
            _ => false,
        }
    }
}

/// `{"type": "json_object"}`: the response format that asks a model for a JSON object.
pub open spec fn json_object_format() -> JsonView {
    JsonView::Object(seq![("type"@, JsonView::Str("json_object"@))])
}

/// `{"response_format": {"type": "json_object"}}`: an extra request body that asks a
/// model for a JSON object.
pub open spec fn json_object_response_format() -> JsonView {
    JsonView::Object(seq![("response_format"@, json_object_format())])
}

impl Json {
    /// `{"type": "json_object"}`.
    pub fn json_object_format() -> (r: Json)
        ensures
            r@ == json_object_format(),
    {
        let mut members: Vec<(String, Json)> = Vec::new();
        members.push((String::from_str("type"), Json::text_of("json_object")));
        let r = Json::Object(members);
        assert(r@->Object_0 =~= json_object_format()->Object_0);
        r
    }

    /// `{"response_format": {"type": "json_object"}}`.
    pub fn json_object_response_format() -> (r: Json)
        ensures
            r@ == json_object_response_format(),
    {
        let mut members: Vec<(String, Json)> = Vec::new();
        members.push((String::from_str("response_format"), Json::json_object_format()));
        let r = Json::Object(members);
        assert(r@->Object_0 =~= json_object_response_format()->Object_0);
        r
    }
}

/// Setting a member and reading it back gives the value set.
pub proof fn lemma_member_after_set(members: Seq<(Seq<char>, JsonView)>, key: Seq<char>, value: JsonView)
    ensures
        member(with_member(members, key, value), key) == Some(value),
{
    let after = with_member(members, key, value);
    if exists|i: int| is_first_key(members, key, i) {
        let i = choose|i: int| is_first_key(members, key, i);
        assert(is_first_key(after, key, i));
        let k = choose|k: int| is_first_key(after, key, k);
        lemma_first_key_unique(after, key, i, k);
    } else {
        let i = members.len() as int;
        assert forall|j: int| 0 <= j < i implies after[j].0 != key by {
            if after[j].0 == key {
                lemma_first_position(members, key, j);
            }
        }
        assert(is_first_key(after, key, i));
        let k = choose|k: int| is_first_key(after, key, k);
        lemma_first_key_unique(after, key, i, k);
    }
}

/// Reading a member finds the first member of that name: where no member is named
/// `key` there is nothing, and where member `i` is the first so named, its value.
pub proof fn lemma_member_is_first_match(members: Seq<(Seq<char>, JsonView)>, key: Seq<char>)
    ensures
        (forall|j: int| 0 <= j < members.len() ==> (#[trigger] members[j]).0 != key) ==> member(members, key) is None,
        forall|i: int|
            #![trigger members[i]]
            0 <= i < members.len() && members[i].0 == key && (forall|j: int| 0 <= j < i ==> members[j].0 != key)
                ==> member(members, key) == Some(members[i].1),
{
    assert forall|i: int|
        #![trigger members[i]]
        0 <= i < members.len() && members[i].0 == key && (forall|j: int| 0 <= j < i ==> members[j].0 != key)
            implies member(members, key) == Some(members[i].1) by {
        assert(is_first_key(members, key, i));
        let k = choose|k: int| is_first_key(members, key, k);
        lemma_first_key_unique(members, key, i, k);
    }
}

/// Where some member is named `key`, a first one is.
pub proof fn lemma_first_position(members: Seq<(Seq<char>, JsonView)>, key: Seq<char>, j: int)
    requires
        0 <= j < members.len(),
        members[j].0 == key,
    ensures
        exists|i: int| is_first_key(members, key, i),
    decreases j,
{
    if exists|l: int| 0 <= l < j && members[l].0 == key {
        let l = choose|l: int| 0 <= l < j && members[l].0 == key;
        lemma_first_position(members, key, l);
    } else {
        assert(is_first_key(members, key, j));
    }
}

/// Setting a member leaves the other members readable as before.
pub proof fn lemma_member_after_set_other(
    members: Seq<(Seq<char>, JsonView)>,
    key: Seq<char>,
    value: JsonView,
    other: Seq<char>,
)
    requires
        other != key,
    ensures
        member(with_member(members, key, value), other) == member(members, other),
{
    let after = with_member(members, key, value);
    assert forall|i: int| #[trigger] is_first_key(after, other, i) <==> is_first_key(members, other, i) by {
        if 0 <= i < members.len() {
            assert(forall|j: int| 0 <= j < members.len() && after[j].0 == other ==> members[j].0 == other);
            assert(forall|j: int| 0 <= j < members.len() && members[j].0 == other ==> after[j].0 == other);
        }
    }
    if exists|i: int| is_first_key(members, other, i) {
        let i = choose|i: int| is_first_key(members, other, i);
        let k = choose|k: int| is_first_key(after, other, k);
        lemma_first_key_unique(after, other, i, k);
    }
}

/// The views of the members of an object.
pub open spec fn members_view(members: Seq<(String, Json)>) -> Seq<(Seq<char>, JsonView)> {
    members.map_values(|m: (String, Json)| (m.0@, m.1@))
}

/// The views of the items of an array.
pub open spec fn items_view(items: Seq<Json>) -> Seq<JsonView> {
    items.map_values(|j: Json| j@)
}

impl Json {
    /// A JSON string with the given text.
    pub fn text_of(s: &str) -> (r: Json)
        ensures
            r@ == JsonView::Str(s@),
    {
        Json::Str(s.to_owned())
    }

    /// A member of an object.
    pub fn member_of(key: &str, value: Json) -> (r: (String, Json))
        ensures
            r.0@ == key@,
            r.1 == value,
    {
        (key.to_owned(), value)
    }

    /// An object with these members, in this order.
    pub fn object_of(members: Vec<(String, Json)>) -> (r: Json)
        ensures
            r@ == JsonView::Object(members_view(members@)),
    {
        let r = Json::Object(members);
        assert(r@->Object_0 =~= members_view(members@));
        r
    }

    /// An array with these items, in this order.
    pub fn array_of(items: Vec<Json>) -> (r: Json)
        ensures
            r@ == JsonView::Array(items_view(items@)),
    {
        let r = Json::Array(items);
        assert(r@->Array_0 =~= items_view(items@));
        r
    }

    /// The items, where this is a JSON array.
    pub fn as_array<'a>(&'a self) -> (r: Option<&'a Vec<Json>>)
        ensures
            match r {
                Some(items) => self@ == JsonView::Array(items_view(items@)),
                None => !(self@ is Array),
            },
    {
        match self {
            Json::Array(items) => {
                assert(self@->Array_0 =~= items_view(items@));
                Some(items)
            },
            _ => None,
        }
    }
}

/// `{"type": "string", "description": <description>}`: the schema of a string parameter.
pub open spec fn string_property_view(description: Seq<char>) -> JsonView {
    JsonView::Object(seq![("type"@, JsonView::Str("string"@)), ("description"@, JsonView::Str(description))])
}

/// `{"type": "object", "properties": {<name>: <property>}, "required": [<name>]}`: the
/// schema of the parameters of a tool with one required parameter.
pub open spec fn one_parameter_schema_view(name: Seq<char>, property: JsonView) -> JsonView {
    JsonView::Object(
        seq![
            ("type"@, JsonView::Str("object"@)),
            ("properties"@, JsonView::Object(seq![(name, property)])),
            ("required"@, JsonView::Array(seq![JsonView::Str(name)])),
        ],
    )
}

/// The schema of a string parameter.
pub fn string_property(description: &str) -> (r: Json)
    ensures
        r@ == string_property_view(description@),
{
    let r = Json::object_of(vec![
        Json::member_of("type", Json::text_of("string")),
        Json::member_of("description", Json::text_of(description)),
    ]);
    assert(r@->Object_0 =~= string_property_view(description@)->Object_0);
    r
}

/// The schema of the parameters of a tool with one required parameter.
pub fn one_parameter_schema(name: &str, property: Json) -> (r: Json)
    ensures
        r@ == one_parameter_schema_view(name@, property@),
{
    let properties = Json::object_of(vec![Json::member_of(name, property)]);
    assert(properties@->Object_0 =~= seq![(name@, property@)]);
    let required = Json::array_of(vec![Json::text_of(name)]);
    assert(required@->Array_0 =~= seq![JsonView::Str(name@)]);
    let r = Json::object_of(vec![
        Json::member_of("type", Json::text_of("object")),
        Json::member_of("properties", properties),
        Json::member_of("required", required),
    ]);
    assert(r@->Object_0 =~= one_parameter_schema_view(name@, property@)->Object_0);
    r
}

} // verus!
