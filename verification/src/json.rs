//! JSON values as plain data, and the calls into `serde_json` and `toon_format` that read and
//! write them as text.

use vstd::prelude::*;

use crate::text::{cat3, join, joined, num, num_signed, opt_view, same_text, signed_decimal, views};

verus! {

/// A JSON number: its value where it is a signed or an unsigned 64-bit integer, and its text.
#[derive(Clone, Debug)]
pub struct JsonNumber {
    pub signed: Option<i64>,
    pub unsigned: Option<u64>,
    pub text: String,
}

/// A JSON value. An object is the list of its entries.
#[derive(Debug)]
pub enum Json {
    Null,
    Bool(bool),
    Number(JsonNumber),
    Str(String),
    Array(Vec<Json>),
    Object(Vec<(String, Json)>),
}

/// The mathematical counterpart of [`Json`].
pub enum JsonView {
    Null,
    Bool(bool),
    Number(Option<i64>, Option<u64>, Seq<char>),
    Str(Seq<char>),
    Array(Seq<JsonView>),
    Object(Seq<(Seq<char>, JsonView)>),
}

impl Json {
    /// The value as mathematical data.
    pub open spec fn model(&self) -> JsonView
        decreases self,
    {
        match self {
            Json::Null => JsonView::Null,
            Json::Bool(b) => JsonView::Bool(*b),
            Json::Number(n) => JsonView::Number(n.signed, n.unsigned, n.text@),
            Json::Str(s) => JsonView::Str(s@),
            Json::Array(items) => JsonView::Array(
                Seq::new(
                    items@.len(),
                    |i: int|
                        if 0 <= i < items@.len() {
                            items@[i].model()
                        } else {
                            JsonView::Null
                        },
                ),
            ),
            Json::Object(entries) => JsonView::Object(
                Seq::new(
                    entries@.len(),
                    |i: int|
                        if 0 <= i < entries@.len() {
                            (entries@[i].0@, entries@[i].1.model())
                        } else {
                            (Seq::empty(), JsonView::Null)
                        },
                ),
            ),
        }
    }
}

impl View for Json {
    type V = JsonView;

    open spec fn view(&self) -> JsonView {
        self.model()
    }
}

/// The position of the first entry with the key; the number of entries where there is none.
pub open spec fn key_index(entries: Seq<(Seq<char>, JsonView)>, key: Seq<char>) -> nat
    decreases entries.len(),
{
    if entries.len() == 0 || entries[0].0 == key {
        0
    } else {
        1 + key_index(entries.drop_first(), key)
    }
}

proof fn lemma_key_index_is(entries: Seq<(Seq<char>, JsonView)>, key: Seq<char>, k: nat)
    requires
        k <= entries.len(),
        k < entries.len() ==> entries[k as int].0 == key,
        forall|j: int| 0 <= j < k ==> (#[trigger] entries[j]).0 != key,
    ensures
        key_index(entries, key) == k,
    decreases entries.len(),
{
    if k > 0 {
        assert(entries[0].0 != key);
        let t = entries.drop_first();
        assert forall|j: int| 0 <= j < k - 1 implies (#[trigger] t[j]).0 != key by {
            assert(t[j] == entries[j + 1]);
        }
        lemma_key_index_is(t, key, (k - 1) as nat);
    }
}

impl JsonView {
    /// The value under a key, where the value is an object that has it.
    pub open spec fn field(self, key: Seq<char>) -> Option<JsonView> {
        match self {
            JsonView::Object(entries) => if key_index(entries, key) < entries.len() {
                Some(entries[key_index(entries, key) as int].1)
            } else {
                None
            },
            _ => None,
        }
    }

    /// The text of a string value.
    pub open spec fn str_value(self) -> Option<Seq<char>> {
        match self {
            JsonView::Str(s) => Some(s),
            _ => None,
        }
    }

    /// The value of a boolean.
    pub open spec fn bool_value(self) -> Option<bool> {
        match self {
            JsonView::Bool(b) => Some(b),
            _ => None,
        }
    }

    /// The value of a number that is an unsigned 64-bit integer.
    pub open spec fn u64_value(self) -> Option<u64> {
        match self {
            JsonView::Number(_, u, _) => u,
            _ => None,
        }
    }

    /// The value of a number that is a signed 64-bit integer.
    pub open spec fn i64_value(self) -> Option<i64> {
        match self {
            JsonView::Number(i, _, _) => i,
            _ => None,
        }
    }

    /// The items of an array.
    pub open spec fn items(self) -> Option<Seq<JsonView>> {
        match self {
            JsonView::Array(items) => Some(items),
            _ => None,
        }
    }

    /// The text under a key.
    pub open spec fn str_field(self, key: Seq<char>) -> Option<Seq<char>> {
        match self.field(key) {
            Some(v) => v.str_value(),
            None => None,
        }
    }

    /// The text under a key, or a default.
    pub open spec fn str_field_or(self, key: Seq<char>, default: Seq<char>) -> Seq<char> {
        match self.str_field(key) {
            Some(s) => s,
            None => default,
        }
    }

    /// The unsigned integer under a key.
    pub open spec fn u64_field(self, key: Seq<char>) -> Option<u64> {
        match self.field(key) {
            Some(v) => v.u64_value(),
            None => None,
        }
    }

    /// The signed integer under a key.
    pub open spec fn i64_field(self, key: Seq<char>) -> Option<i64> {
        match self.field(key) {
            Some(v) => v.i64_value(),
            None => None,
        }
    }

    /// The boolean under a key.
    pub open spec fn bool_field(self, key: Seq<char>) -> Option<bool> {
        match self.field(key) {
            Some(v) => v.bool_value(),
            None => None,
        }
    }

    /// The items of the array under a key.
    pub open spec fn items_field(self, key: Seq<char>) -> Option<Seq<JsonView>> {
        match self.field(key) {
            Some(v) => v.items(),
            None => None,
        }
    }
}

impl Json {
    /// The value under a key, where this is an object that has it.
    pub fn get(&self, key: &str) -> (r: Option<&Json>)
        ensures
            r is Some <==> self@.field(key@) is Some,
            r matches Some(v) ==> self@.field(key@) == Some(v@),
    {
        match self {
            Json::Object(entries) => {
                let ghost all = self@->Object_0;
                let mut i: usize = 0;
                while i < entries.len()
                    invariant
                        i <= entries.len(),
                        self@ == JsonView::Object(all),
                        all.len() == entries@.len(),
                        forall|j: int|
                            0 <= j < entries@.len() ==> #[trigger] all[j] == (
                                entries@[j].0@,
                                entries@[j].1@,
                            ),
                        forall|j: int| 0 <= j < i ==> (#[trigger] all[j]).0 != key@,
                    decreases entries.len() - i,
                {
                    if same_text(entries[i].0.as_str(), key) {
                        proof {
                            assert(all[i as int].0 == key@);
                            lemma_key_index_is(all, key@, i as nat);
                        }
                        return Some(&entries[i].1);
                    }
                    proof {
                        assert(all[i as int].0 != key@);
                    }
                    i = i + 1;
                }
                proof {
                    lemma_key_index_is(all, key@, i as nat);
                }
                None
            },
            _ => None,
        }
    }

    /// The text of a string value.
    pub fn as_str(&self) -> (r: Option<&str>)
        ensures
            r is Some <==> self@.str_value() is Some,
            r matches Some(s) ==> self@.str_value() == Some(s@),
    {
        match self {
            Json::Str(s) => Some(s.as_str()),
            _ => None,
        }
    }

    /// The value of a boolean.
    pub fn as_bool(&self) -> (r: Option<bool>)
        ensures
            r == self@.bool_value(),
    {
        match self {
            Json::Bool(b) => Some(*b),
            _ => None,
        }
    }

    /// The value of a number that is an unsigned 64-bit integer.
    pub fn as_u64(&self) -> (r: Option<u64>)
        ensures
            r == self@.u64_value(),
    {
        match self {
            Json::Number(n) => n.unsigned,
            _ => None,
        }
    }

    /// The value of a number that is a signed 64-bit integer.
    pub fn as_i64(&self) -> (r: Option<i64>)
        ensures
            r == self@.i64_value(),
    {
        match self {
            Json::Number(n) => n.signed,
            _ => None,
        }
    }

    /// The items of an array.
    pub fn as_array(&self) -> (r: Option<&Vec<Json>>)
        ensures
            r is Some <==> self@.items() is Some,
            r matches Some(v) ==> self@.items() == Some(v@.map_values(|j: Json| j@)),
    {
        match self {
            Json::Array(items) => {
                proof {
                    assert(self@->Array_0 =~= items@.map_values(|j: Json| j@));
                }
                Some(items)
            },
            _ => None,
        }
    }

    /// The text under a key.
    pub fn get_str(&self, key: &str) -> (r: Option<&str>)
        ensures
            r is Some <==> self@.str_field(key@) is Some,
            r matches Some(s) ==> self@.str_field(key@) == Some(s@),
    {
        match self.get(key) {
            Some(v) => v.as_str(),
            None => None,
        }
    }

    /// An owned copy of the text under a key, or of a default.
    pub fn get_str_or(&self, key: &str, default: &str) -> (r: String)
        ensures
            r@ == self@.str_field_or(key@, default@),
    {
        match self.get_str(key) {
            Some(s) => s.to_owned(),
            None => default.to_owned(),
        }
    }

    /// The unsigned integer under a key.
    pub fn get_u64(&self, key: &str) -> (r: Option<u64>)
        ensures
            r == self@.u64_field(key@),
    {
        match self.get(key) {
            Some(v) => v.as_u64(),
            None => None,
        }
    }

    /// The signed integer under a key.
    pub fn get_i64(&self, key: &str) -> (r: Option<i64>)
        ensures
            r == self@.i64_field(key@),
    {
        match self.get(key) {
            Some(v) => v.as_i64(),
            None => None,
        }
    }

    /// The boolean under a key.
    pub fn get_bool(&self, key: &str) -> (r: Option<bool>)
        ensures
            r == self@.bool_field(key@),
    {
        match self.get(key) {
            Some(v) => v.as_bool(),
            None => None,
        }
    }

    /// The items of the array under a key.
    pub fn get_array(&self, key: &str) -> (r: Option<&Vec<Json>>)
        ensures
            r is Some <==> self@.items_field(key@) is Some,
            r matches Some(v) ==> self@.items_field(key@) == Some(v@.map_values(|j: Json| j@)),
    {
        match self.get(key) {
            Some(v) => v.as_array(),
            None => None,
        }
    }

    /// A copy of the value.
    pub fn duplicate(&self) -> (r: Json)
        ensures
            r@ == self@,
        decreases self,
    {
        match self {
            Json::Null => Json::Null,
            Json::Bool(b) => Json::Bool(*b),
            Json::Number(n) => Json::Number(
                JsonNumber { signed: n.signed, unsigned: n.unsigned, text: n.text.clone() },
            ),
            Json::Str(s) => Json::Str(s.clone()),
            Json::Array(items) => {
                let mut out: Vec<Json> = Vec::new();
                let mut i: usize = 0;
                while i < items.len()
                    invariant
                        i <= items.len(),
                        out.len() == i,
                        *self == Json::Array(*items),
                        forall|j: int| 0 <= j < i ==> (#[trigger] out@[j])@ == items@[j]@,
                    decreases items.len() - i,
                {
                    assert(decreases_to!(self => self->Array_0@[i as int]));
                    out.push(items[i].duplicate());
                    i = i + 1;
                }
                let r: Json = Json::Array(out);
                assert(r@->Array_0 =~= self@->Array_0);
                r
            },
            Json::Object(entries) => {
                let mut out: Vec<(String, Json)> = Vec::new();
                let mut i: usize = 0;
                while i < entries.len()
                    invariant
                        i <= entries.len(),
                        out.len() == i,
                        *self == Json::Object(*entries),
                        forall|j: int|
                            0 <= j < i ==> (#[trigger] out@[j]).0@ == entries@[j].0@ && out@[j].1@
                                == entries@[j].1@,
                    decreases entries.len() - i,
                {
                    assert(decreases_to!(self => self->Object_0@[i as int].1));
                    out.push((entries[i].0.clone(), entries[i].1.duplicate()));
                    i = i + 1;
                }
                let r: Json = Json::Object(out);
                assert(r@->Object_0 =~= self@->Object_0);
                r
            },
        }
    }

    /// A string value.
    pub fn string(s: &str) -> (r: Json)
        ensures
            r@ == JsonView::Str(s@),
    {
        Json::Str(s.to_owned())
    }
}

// ---------------------------------------------------------------------------
// Outside calls
// ---------------------------------------------------------------------------

/// The JSON value of the crate `serde_json`.
#[verifier::external_type_specification]
#[verifier::external_body]
pub struct ExValue(serde_json::Value);

/// What `serde_json::from_str` makes of a text: the value it reads, or the text of its error.
pub uninterp spec fn json_of_text(text: Seq<char>) -> Result<JsonView, Seq<char>>;

/// The result of reading a JSON text as mathematical data.
pub open spec fn parse_view(r: Result<Json, String>) -> Result<JsonView, Seq<char>> {
    match r {
        Ok(j) => Ok(j@),
        Err(e) => Err(e@),
    }
}

/// Moves a `serde_json::Value` into a [`Json`], part for part. Nothing is claimed of it by
/// itself: the functions that read text claim what comes out of the two calls together.
#[verifier::external_body]
fn json_of_value(value: serde_json::Value) -> (r: Json) {
    match value {
        serde_json::Value::Null => Json::Null,
        serde_json::Value::Bool(b) => Json::Bool(b),
        serde_json::Value::Number(n) => Json::Number(
            JsonNumber { signed: n.as_i64(), unsigned: n.as_u64(), text: n.to_string() },
        ),
        serde_json::Value::String(s) => Json::Str(s),
        serde_json::Value::Array(items) => Json::Array(
            items.into_iter().map(json_of_value).collect(),
        ),
        serde_json::Value::Object(map) => Json::Object(
            map.into_iter().map(|(k, v)| (k, json_of_value(v))).collect(),
        ),
    }
}

/// `serde_json::from_str`: the value that a JSON text stands for, or the text of the error.
/// The result depends on the text alone and is called `json_of_text`.
#[verifier::external_body]
pub(crate) fn parse_json(text: &str) -> (r: Result<Json, String>)
    ensures
        parse_view(r) == json_of_text(text@),
{
    match serde_json::from_str::<serde_json::Value>(text) {
        Ok(value) => Ok(json_of_value(value)),
        Err(error) => Err(error.to_string()),
    }
}

/// Moves a [`Json`] into a `serde_json::Value`, part for part. Nothing is claimed of it by
/// itself: the functions that write text claim what comes out of the two calls together.
#[verifier::external_body]
pub(crate) fn value_of_json(json: &Json) -> (r: serde_json::Value) {
    match json {
        Json::Null => serde_json::Value::Null,
        Json::Bool(b) => serde_json::Value::Bool(*b),
        Json::Number(n) => serde_json::from_str(&n.text).unwrap_or(serde_json::Value::Null),
        Json::Str(s) => serde_json::Value::String(s.clone()),
        Json::Array(items) => serde_json::Value::Array(items.iter().map(value_of_json).collect()),
        Json::Object(entries) => serde_json::Value::Object(
            entries.iter().map(|(k, v)| (k.clone(), value_of_json(v))).collect(),
        ),
    }
}

/// What the `Debug` formatting of `serde_json::Value` makes of a value.
pub uninterp spec fn debug_json(value: JsonView) -> Seq<char>;

/// The `Debug` formatting of `serde_json::Value`. The result depends on the value alone and is
/// called `debug_json`.
#[verifier::external_body]
pub(crate) fn format_json_debug(json: &Json) -> (r: String)
    ensures
        r@ == debug_json(json@),
{
    format!("{:?}", value_of_json(json))
}

/// The values of a list.
pub open spec fn json_views(items: Seq<Json>) -> Seq<JsonView> {
    items.map_values(|j: Json| j@)
}

/// The `Debug` formatting of a list of values.
pub open spec fn debug_json_list(items: Seq<JsonView>) -> Seq<char> {
    "["@ + joined(items.map_values(|j: JsonView| debug_json(j)), ", "@) + "]"@
}

/// The `Debug` formatting of a list of values.
pub fn format_json_list_debug(items: &Vec<Json>) -> (r: String)
    ensures
        r@ == debug_json_list(json_views(items@)),
{
    let mut parts: Vec<String> = Vec::new();
    let mut i: usize = 0;
    while i < items.len()
        invariant
            i <= items.len(),
            parts.len() == i,
            forall|j: int| 0 <= j < i ==> (#[trigger] parts@[j])@ == debug_json(items@[j]@),
        decreases items.len() - i,
    {
        parts.push(format_json_debug(&items[i]));
        i = i + 1;
    }
    assert(views(parts@) =~= json_views(items@).map_values(|j: JsonView| debug_json(j)));
    cat3("[", join(&parts, ", ").as_str(), "]")
}

// ---------------------------------------------------------------------------
// Building values
// ---------------------------------------------------------------------------

/// A whole number as a JSON value.
pub open spec fn number_view(n: int) -> JsonView {
    JsonView::Number(
        if i64::MIN <= n <= i64::MAX {
            Some(n as i64)
        } else {
            None
        },
        if 0 <= n <= u64::MAX {
            Some(n as u64)
        } else {
            None
        },
        signed_decimal(n),
    )
}

impl Json {
    /// An unsigned number.
    pub fn unsigned(n: u64) -> (r: Json)
        ensures
            r@ == number_view(n as int),
    {
        Json::Number(
            JsonNumber {
                signed: if n <= i64::MAX as u64 {
                    Some(n as i64)
                } else {
                    None
                },
                unsigned: Some(n),
                text: num(n),
            },
        )
    }

    /// A signed number.
    pub fn signed(n: i64) -> (r: Json)
        ensures
            r@ == number_view(n as int),
    {
        Json::Number(
            JsonNumber {
                signed: Some(n),
                unsigned: if n >= 0 {
                    Some(n as u64)
                } else {
                    None
                },
                text: num_signed(n),
            },
        )
    }

    /// A list of strings.
    pub fn strings(items: &Vec<String>) -> (r: Json)
        ensures
            r@ == strings_view(views(items@)),
    {
        let mut out: Vec<Json> = Vec::new();
        let mut i: usize = 0;
        while i < items.len()
            invariant
                i <= items.len(),
                out.len() == i,
                forall|j: int| 0 <= j < i ==> (#[trigger] out@[j])@ == JsonView::Str(items@[j]@),
            decreases items.len() - i,
        {
            out.push(Json::Str(items[i].clone()));
            i = i + 1;
        }
        let r: Json = Json::Array(out);
        assert(r@->Array_0 =~= strings_view(views(items@))->Array_0);
        r
    }

    /// A list of signed numbers.
    pub fn numbers(items: &Vec<i64>) -> (r: Json)
        ensures
            r@ == numbers_view(items@),
    {
        let mut out: Vec<Json> = Vec::new();
        let mut i: usize = 0;
        while i < items.len()
            invariant
                i <= items.len(),
                out.len() == i,
                forall|j: int| 0 <= j < i ==> (#[trigger] out@[j])@ == number_view(items@[j] as int),
            decreases items.len() - i,
        {
            out.push(Json::signed(items[i]));
            i = i + 1;
        }
        let r: Json = Json::Array(out);
        assert(r@->Array_0 =~= numbers_view(items@)->Array_0);
        r
    }
}

/// A list of strings as a JSON value.
pub open spec fn strings_view(items: Seq<Seq<char>>) -> JsonView {
    JsonView::Array(items.map_values(|s: Seq<char>| JsonView::Str(s)))
}

/// A list of signed numbers as a JSON value.
pub open spec fn numbers_view(items: Seq<i64>) -> JsonView {
    JsonView::Array(items.map_values(|n: i64| number_view(n as int)))
}

/// The entries of an object that is being built.
pub struct JsonObject {
    pub entries: Vec<(String, Json)>,
}

impl View for JsonObject {
    type V = Seq<(Seq<char>, JsonView)>;

    open spec fn view(&self) -> Seq<(Seq<char>, JsonView)> {
        self.entries@.map_values(|e: (String, Json)| (e.0@, e.1@))
    }
}

/// The entries, with one more where there is a value.
pub open spec fn with_entry(
    entries: Seq<(Seq<char>, JsonView)>,
    key: Seq<char>,
    value: Option<JsonView>,
) -> Seq<(Seq<char>, JsonView)> {
    match value {
        Some(v) => entries.push((key, v)),
        None => entries,
    }
}

/// An optional text as an optional value.
pub open spec fn opt_str_json(s: Option<Seq<char>>) -> Option<JsonView> {
    match s {
        Some(t) => Some(JsonView::Str(t)),
        None => None,
    }
}

/// An optional number as an optional value.
pub open spec fn opt_number_json(n: Option<int>) -> Option<JsonView> {
    match n {
        Some(i) => Some(number_view(i)),
        None => None,
    }
}

/// An optional flag as an optional value.
pub open spec fn opt_bool_json(b: Option<bool>) -> Option<JsonView> {
    match b {
        Some(f) => Some(JsonView::Bool(f)),
        None => None,
    }
}

impl JsonObject {
    /// No entries.
    pub fn new() -> (r: Self)
        ensures
            r@ == Seq::<(Seq<char>, JsonView)>::empty(),
    {
        let r = JsonObject { entries: Vec::new() };
        assert(r@ =~= Seq::<(Seq<char>, JsonView)>::empty());
        r
    }

    /// Adds an entry.
    pub fn put(&mut self, key: &str, value: Json)
        ensures
            final(self)@ == old(self)@.push((key@, value@)),
    {
        self.entries.push((key.to_owned(), value));
        assert(self@ =~= old(self)@.push((key@, value@)));
    }

    /// Adds a text.
    pub fn put_str(&mut self, key: &str, value: &str)
        ensures
            final(self)@ == old(self)@.push((key@, JsonView::Str(value@))),
    {
        self.put(key, Json::string(value));
    }

    /// Adds a text, if there is one.
    pub fn put_opt_str(&mut self, key: &str, value: &Option<String>)
        ensures
            final(self)@ == with_entry(old(self)@, key@, opt_str_json(opt_view(*value))),
    {
        match value {
            Some(s) => self.put_str(key, s.as_str()),
            None => {},
        }
    }

    /// Adds a flag, if there is one.
    pub fn put_opt_bool(&mut self, key: &str, value: Option<bool>)
        ensures
            final(self)@ == with_entry(old(self)@, key@, opt_bool_json(value)),
    {
        match value {
            Some(b) => self.put(key, Json::Bool(b)),
            None => {},
        }
    }

    /// Adds a number, if there is one.
    pub fn put_opt_u32(&mut self, key: &str, value: Option<u32>)
        ensures
            final(self)@ == with_entry(
                old(self)@,
                key@,
                opt_number_json(
                    match value {
                        Some(n) => Some(n as int),
                        None => None,
                    },
                ),
            ),
    {
        match value {
            Some(n) => self.put(key, Json::unsigned(n as u64)),
            None => {},
        }
    }

    /// Adds a number, if there is one.
    pub fn put_opt_u64(&mut self, key: &str, value: Option<u64>)
        ensures
            final(self)@ == with_entry(
                old(self)@,
                key@,
                opt_number_json(
                    match value {
                        Some(n) => Some(n as int),
                        None => None,
                    },
                ),
            ),
    {
        match value {
            Some(n) => self.put(key, Json::unsigned(n)),
            None => {},
        }
    }

    /// Adds a number, if there is one.
    pub fn put_opt_i64(&mut self, key: &str, value: Option<i64>)
        ensures
            final(self)@ == with_entry(
                old(self)@,
                key@,
                opt_number_json(
                    match value {
                        Some(n) => Some(n as int),
                        None => None,
                    },
                ),
            ),
    {
        match value {
            Some(n) => self.put(key, Json::signed(n)),
            None => {},
        }
    }

    /// The object.
    pub fn finish(self) -> (r: Json)
        ensures
            r@ == JsonView::Object(self@),
    {
        let r: Json = Json::Object(self.entries);
        assert(r@->Object_0 =~= self@);
        r
    }
}

// ---------------------------------------------------------------------------
// Reading values back
// ---------------------------------------------------------------------------

/// An object holds a text under a key; nothing where there is no text.
pub open spec fn holds_text(json: JsonView, key: Seq<char>, value: Option<Seq<char>>) -> bool {
    match value {
        Some(s) => json.field(key) == Some(JsonView::Str(s)),
        None => json.field(key) is None,
    }
}

/// An object holds a flag under a key; nothing where there is no flag.
pub open spec fn holds_flag(json: JsonView, key: Seq<char>, value: Option<bool>) -> bool {
    match value {
        Some(b) => json.field(key) == Some(JsonView::Bool(b)),
        None => json.field(key) is None,
    }
}

/// An object holds a whole number under a key, as its value and in decimal; nothing where there
/// is no number.
pub open spec fn holds_number(json: JsonView, key: Seq<char>, value: Option<int>) -> bool {
    match value {
        Some(n) => match json.field(key) {
            Some(JsonView::Number(signed, unsigned, text)) => {
                &&& text == signed_decimal(n)
                &&& i64::MIN <= n <= i64::MAX ==> signed is Some && signed->0 == n
                &&& 0 <= n <= u64::MAX ==> unsigned is Some && unsigned->0 == n
            },
            _ => false,
        },
        None => json.field(key) is None,
    }
}

/// An object holds a list of texts under a key.
pub open spec fn holds_texts(json: JsonView, key: Seq<char>, texts: Seq<Seq<char>>) -> bool {
    match json.field(key) {
        Some(JsonView::Array(items)) => items.len() == texts.len() && forall|i: int|
            0 <= i < texts.len() ==> #[trigger] items[i] == JsonView::Str(texts[i]),
        _ => false,
    }
}

/// The value under a key is that of the first entry with the key; there is none exactly where no
/// entry has the key.
pub proof fn law_field_is_of_first_entry(entries: Seq<(Seq<char>, JsonView)>, key: Seq<char>)
    ensures
        match JsonView::Object(entries).field(key) {
            Some(v) => exists|k: int|
                0 <= k < entries.len() && #[trigger] entries[k] == (key, v) && forall|j: int|
                    0 <= j < k ==> (#[trigger] entries[j]).0 != key,
            None => forall|j: int| 0 <= j < entries.len() ==> (#[trigger] entries[j]).0 != key,
        },
{
    lemma_key_index_bounds(entries, key);
    let k = key_index(entries, key) as int;
    if k < entries.len() {
        assert(entries[k] == (key, entries[k].1));
    }
}

proof fn lemma_key_index_bounds(entries: Seq<(Seq<char>, JsonView)>, key: Seq<char>)
    ensures
        key_index(entries, key) <= entries.len(),
        key_index(entries, key) < entries.len() ==> entries[key_index(entries, key) as int].0
            == key,
        forall|j: int| 0 <= j < key_index(entries, key) ==> (#[trigger] entries[j]).0 != key,
    decreases entries.len(),
{
    if entries.len() > 0 && entries[0].0 != key {
        let t = entries.drop_first();
        lemma_key_index_bounds(t, key);
        assert forall|j: int| 0 <= j < key_index(entries, key) implies (#[trigger] entries[j]).0
            != key by {
            if j > 0 {
                assert(entries[j] == t[j - 1]);
            }
        }
    }
}

/// The value under a key of an entry that no entry with the same key comes before.
pub proof fn lemma_field_at(entries: Seq<(Seq<char>, JsonView)>, key: Seq<char>, k: int)
    requires
        0 <= k < entries.len(),
        entries[k].0 == key,
        forall|j: int| 0 <= j < k ==> (#[trigger] entries[j]).0 != key,
    ensures
        JsonView::Object(entries).field(key) == Some(entries[k].1),
{
    lemma_key_index_is(entries, key, k as nat);
}

/// There is no value under a key that no entry has.
pub proof fn lemma_field_absent(entries: Seq<(Seq<char>, JsonView)>, key: Seq<char>)
    requires
        forall|j: int| 0 <= j < entries.len() ==> (#[trigger] entries[j]).0 != key,
    ensures
        JsonView::Object(entries).field(key) is None,
{
    lemma_key_index_is(entries, key, entries.len());
}

/// An entry that is added is found under its key, unless the key was there before; under every
/// other key the object holds what it held.
pub broadcast proof fn lemma_field_with_entry(
    entries: Seq<(Seq<char>, JsonView)>,
    name: Seq<char>,
    value: Option<JsonView>,
    key: Seq<char>,
)
    ensures
        #[trigger] JsonView::Object(with_entry(entries, name, value)).field(key) == (
        if JsonView::Object(entries).field(key) is Some {
            JsonView::Object(entries).field(key)
        } else if key == name {
            value
        } else {
            None
        }),
{
    let longer = with_entry(entries, name, value);
    lemma_key_index_bounds(entries, key);
    let k = key_index(entries, key);
    if value is Some {
        assert forall|j: int| 0 <= j < entries.len() implies #[trigger] longer[j] == entries[j] by {}
        if k < entries.len() {
            lemma_key_index_is(longer, key, k);
        } else if key == name {
            lemma_key_index_is(longer, key, k);
        } else {
            assert(longer[entries.len() as int].0 == name);
            lemma_key_index_is(longer, key, longer.len());
        }
    }
}

// ---------------------------------------------------------------------------
// TOON
// ---------------------------------------------------------------------------

/// What `toon_format::decode` makes of a text in non-strict mode: the value that it reads, if
/// it can.
pub uninterp spec fn json_of_toon(text: Seq<char>) -> Option<JsonView>;

/// `toon_format::decode` into a `serde_json::Value`, in non-strict mode: the value that a TOON
/// text stands for, if it is one. The result depends on the text alone and is called
/// `json_of_toon`.
#[verifier::external_body]
pub(crate) fn parse_toon(text: &str) -> (r: Option<Json>)
    ensures
        opt_json_view(r) == json_of_toon(text@),
{
    let options = toon_format::DecodeOptions::new().with_strict(false);
    match toon_format::decode::<serde_json::Value>(text, &options) {
        Ok(value) => Some(json_of_value(value)),
        Err(_) => None,
    }
}

/// The view of an optional value.
pub open spec fn opt_json_view(j: Option<Json>) -> Option<JsonView> {
    match j {
        Some(v) => Some(v@),
        None => None,
    }
}

/// The value that a TOON text stands for, if it is one.
pub fn decode_toon(text: &str) -> (r: Option<Json>)
    ensures
        opt_json_view(r) == json_of_toon(text@),
{
    parse_toon(text)
}

/// What `serde_json` writes for a value.
pub uninterp spec fn text_of_json(value: JsonView) -> Seq<char>;

/// `to_string` of a `serde_json::Value`: its compact JSON text. The result depends on the value
/// alone and is called `text_of_json`.
#[verifier::external_body]
pub(crate) fn json_to_text(json: &Json) -> (r: String)
    ensures
        r@ == text_of_json(json@),
{
    value_of_json(json).to_string()
}

/// The compact JSON text of a value.
pub fn json_text(json: &Json) -> (r: String)
    ensures
        r@ == text_of_json(json@),
{
    json_to_text(json)
}

/// The value that a JSON text stands for, or the text of the error.
pub fn read_json(text: &str) -> (r: Result<Json, String>)
    ensures
        parse_view(r) == json_of_text(text@),
{
    parse_json(text)
}

} // verus!
