//! A plain JSON value and its mathematical view.
//!
//! The engine reads and builds JSON documents but never parses or prints
//! them; turning text into a [`Json`] and back is left to the caller.

use crate::text::view_text;
use crate::text::views;
use vstd::prelude::*;
use vstd::string::*;

verus! {

/// A JSON number: a non-negative integer, a negative integer, or the bit
/// pattern of an IEEE-754 double.
#[derive(Clone, Copy, Debug, PartialEq, Eq, Structural)]
pub enum JsonNumber {
    PosInt(u64),
    NegInt(i64),
    Real(u64),
}

impl Default for JsonNumber {
    /// Zero.
    fn default() -> (number: Self)
        ensures
            number == JsonNumber::PosInt(0),
    {
        JsonNumber::PosInt(0)
    }
}

impl Default for Json {
    /// `null`.
    fn default() -> (json: Self)
        ensures
            json@ == JsonView::Null,
    {
        Json::Null
    }
}

impl JsonNumber {
    /// The number that stands for a 64-bit signed integer: negative
    /// integers and the others are kept apart.
    pub open spec fn of_int(n: int) -> JsonNumber {
        if n < 0 {
            JsonNumber::NegInt(n as i64)
        } else {
            JsonNumber::PosInt(n as u64)
        }
    }
}

/// A JSON value. Objects keep their fields in insertion order; a lookup
/// finds the first field with the given key.
#[derive(Debug, PartialEq, Eq)]
pub enum Json {
    Null,
    Bool(bool),
    Number(JsonNumber),
    Str(String),
    Array(Vec<Json>),
    Object(Vec<(String, Json)>),
}

/// The mathematical value of a [`Json`]: strings as character sequences,
/// arrays and objects as sequences.
pub enum JsonView {
    Null,
    Bool(bool),
    Number(JsonNumber),
    Str(Seq<char>),
    Array(Seq<JsonView>),
    Object(Seq<(Seq<char>, JsonView)>),
}

/// The view of the first `n` items of a list of values.
pub open spec fn items_view_upto(items: Seq<Json>, n: nat) -> Seq<JsonView>
    decreases items, n,
{
    if n == 0 || n > items.len() {
        Seq::empty()
    } else {
        items_view_upto(items, (n - 1) as nat).push(json_view(items[n - 1]))
    }
}

/// The view of the first `n` fields of an object.
pub open spec fn fields_view_upto(fields: Seq<(String, Json)>, n: nat) -> Seq<
    (Seq<char>, JsonView),
>
    decreases fields, n,
{
    if n == 0 || n > fields.len() {
        Seq::empty()
    } else {
        fields_view_upto(fields, (n - 1) as nat).push(
            (fields[n - 1].0@, json_view(fields[n - 1].1)),
        )
    }
}

/// The mathematical value of a JSON value.
pub open spec fn json_view(json: Json) -> JsonView
    decreases json, 0nat,
{
    match json {
        Json::Null => JsonView::Null,
        Json::Bool(b) => JsonView::Bool(b),
        Json::Number(n) => JsonView::Number(n),
        Json::Str(s) => JsonView::Str(s@),
        Json::Array(items) => JsonView::Array(items_view_upto(items@, items@.len())),
        Json::Object(fields) => JsonView::Object(fields_view_upto(fields@, fields@.len())),
    }
}

impl View for Json {
    type V = JsonView;

    open spec fn view(&self) -> JsonView {
        json_view(*self)
    }
}

/// The view of a list of values, item by item.
pub open spec fn view_items(items: Seq<Json>) -> Seq<JsonView> {
    Seq::new(items.len(), |i: int| items[i]@)
}

/// The view of a list of object fields, field by field.
pub open spec fn view_fields(fields: Seq<(String, Json)>) -> Seq<(Seq<char>, JsonView)> {
    Seq::new(fields.len(), |i: int| (fields[i].0@, fields[i].1@))
}

proof fn lemma_items_view_upto(items: Seq<Json>, n: nat)
    requires
        n <= items.len(),
    ensures
        items_view_upto(items, n) == view_items(items.take(n as int)),
    decreases n,
{
    if n > 0 {
        lemma_items_view_upto(items, (n - 1) as nat);
    }
    assert(items_view_upto(items, n) =~= view_items(items.take(n as int)));
}

proof fn lemma_fields_view_upto(fields: Seq<(String, Json)>, n: nat)
    requires
        n <= fields.len(),
    ensures
        fields_view_upto(fields, n) == view_fields(fields.take(n as int)),
    decreases n,
{
    if n > 0 {
        lemma_fields_view_upto(fields, (n - 1) as nat);
    }
    assert(fields_view_upto(fields, n) =~= view_fields(fields.take(n as int)));
}

impl JsonView {
    /// The value of the first field named `key`, searching from position
    /// `from`; `None` where there is no such field.
    pub open spec fn field_from(fields: Seq<(Seq<char>, JsonView)>, key: Seq<char>, from: int) -> Option<JsonView>
        decreases fields.len() - from,
    {
        if from < 0 || from >= fields.len() {
            None
        } else if fields[from].0 == key {
            Some(fields[from].1)
        } else {
            Self::field_from(fields, key, from + 1)
        }
    }

    /// The value of the first field named `key` where this is an object that
    /// has one; `None` otherwise.
    pub open spec fn field(self, key: Seq<char>) -> Option<JsonView> {
        match self {
            JsonView::Object(fields) => Self::field_from(fields, key, 0),
            _ => None,
        }
    }

    /// The text of a string value; `None` for every other value.
    pub open spec fn as_str(self) -> Option<Seq<char>> {
        match self {
            JsonView::Str(s) => Some(s),
            _ => None,
        }
    }

    /// The text of the string field `key`; `None` where there is no such
    /// field or it is no string.
    pub open spec fn text_field(self, key: Seq<char>) -> Option<Seq<char>> {
        match self.field(key) {
            Some(value) => value.as_str(),
            None => None,
        }
    }

    /// The text of the string field `key`, or `default` where there is no
    /// such field or it is no string.
    pub open spec fn text_or(self, key: Seq<char>, default: Seq<char>) -> Seq<char> {
        match self.text_field(key) {
            Some(text) => text,
            None => default,
        }
    }

    /// The number in the field `key` as a signed integer; `None` where
    /// there is no such field or it holds no such number.
    pub open spec fn i64_field(self, key: Seq<char>) -> Option<i64> {
        match self.field(key) {
            Some(value) => value.as_i64(),
            None => None,
        }
    }

    /// The number in the field `key` as an unsigned integer; `None` where
    /// there is no such field or it holds no such number.
    pub open spec fn u64_field(self, key: Seq<char>) -> Option<u64> {
        match self.field(key) {
            Some(value) => value.as_u64(),
            None => None,
        }
    }

    /// The truth value in the field `key`; `None` where there is no such
    /// field or it is no boolean.
    pub open spec fn bool_field(self, key: Seq<char>) -> Option<bool> {
        match self.field(key) {
            Some(value) => value.as_bool(),
            None => None,
        }
    }

    /// The items of the array in the field `key`; `None` where there is no
    /// such field or it is no array.
    pub open spec fn array_field(self, key: Seq<char>) -> Option<Seq<JsonView>> {
        match self.field(key) {
            Some(JsonView::Array(items)) => Some(items),
            _ => None,
        }
    }

    /// The field `key`, or `null` where there is none.
    pub open spec fn field_or_null(self, key: Seq<char>) -> JsonView {
        match self.field(key) {
            Some(value) => value,
            None => JsonView::Null,
        }
    }

    /// The fields of an object without those named `key`; every other value
    /// is left as it is.
    pub open spec fn without_field(self, key: Seq<char>) -> JsonView {
        match self {
            JsonView::Object(fields) => JsonView::Object(
                fields.filter(|field: (Seq<char>, JsonView)| field.0 != key),
            ),
            other => other,
        }
    }

    /// The truth value of a boolean; `None` for every other value.
    pub open spec fn as_bool(self) -> Option<bool> {
        match self {
            JsonView::Bool(b) => Some(b),
            _ => None,
        }
    }

    /// The number as a signed 64-bit integer; `None` for numbers outside
    /// that range, for reals and for every other value.
    pub open spec fn as_i64(self) -> Option<i64> {
        match self {
            JsonView::Number(JsonNumber::PosInt(p)) => if p <= i64::MAX {
                Some(p as i64)
            } else {
                None
            },
            JsonView::Number(JsonNumber::NegInt(m)) => Some(m),
            _ => None,
        }
    }

    /// The number as an unsigned 64-bit integer; `None` for negative
    /// numbers, for reals and for every other value.
    pub open spec fn as_u64(self) -> Option<u64> {
        match self {
            JsonView::Number(JsonNumber::PosInt(p)) => Some(p),
            JsonView::Number(JsonNumber::NegInt(m)) => if m >= 0 {
                Some(m as u64)
            } else {
                None
            },
            _ => None,
        }
    }
}

/// The view of an optional value.
pub open spec fn view_opt(value: Option<Json>) -> Option<JsonView> {
    match value {
        Some(json) => Some(json@),
        None => None,
    }
}

/// The view of an optional borrowed value.
pub open spec fn view_opt_ref(value: Option<&Json>) -> Option<JsonView> {
    match value {
        Some(json) => Some(json@),
        None => None,
    }
}

impl Json {
    /// An object's view lists the views of its fields in order.
    pub proof fn lemma_object_view(fields: Vec<(String, Json)>)
        ensures
            Json::Object(fields)@ == JsonView::Object(view_fields(fields@)),
    {
        lemma_fields_view_upto(fields@, fields@.len());
        assert(fields@.take(fields@.len() as int) =~= fields@);
    }

    /// An array's view lists the views of its items in order.
    pub proof fn lemma_array_view(items: Vec<Json>)
        ensures
            Json::Array(items)@ == JsonView::Array(view_items(items@)),
    {
        lemma_items_view_upto(items@, items@.len());
        assert(items@.take(items@.len() as int) =~= items@);
    }

    /// A string value holding a copy of `text`.
    pub fn text(text: &str) -> (json: Json)
        ensures
            json@ == JsonView::Str(text@),
    {
        Json::Str(text.to_string())
    }

    /// A non-negative integer value.
    pub fn unsigned(n: u64) -> (json: Json)
        ensures
            json@ == JsonView::Number(JsonNumber::PosInt(n)),
    {
        Json::Number(JsonNumber::PosInt(n))
    }

    /// An integer value; negative numbers and the others are told apart as
    /// the number model requires.
    pub fn integer(n: i64) -> (json: Json)
        ensures
            json@ == JsonView::Number(JsonNumber::of_int(n as int)),
    {
        if n < 0 {
            Json::Number(JsonNumber::NegInt(n))
        } else {
            Json::Number(JsonNumber::PosInt(n as u64))
        }
    }

    /// An object with no fields.
    pub fn empty_object() -> (json: Json)
        ensures
            json@ == JsonView::Object(Seq::empty()),
    {
        let fields: Vec<(String, Json)> = Vec::new();
        proof {
            Self::lemma_object_view(fields);
            assert(view_fields(fields@) =~= Seq::empty());
        }
        Json::Object(fields)
    }

    /// An array with no items.
    pub fn empty_array() -> (json: Json)
        ensures
            json@ == JsonView::Array(Seq::empty()),
    {
        let items: Vec<Json> = Vec::new();
        proof {
            Self::lemma_array_view(items);
            assert(view_items(items@) =~= Seq::empty());
        }
        Json::Array(items)
    }

    /// An object with the single field `key: value`.
    pub fn singleton(key: &str, value: Json) -> (json: Json)
        ensures
            json@ == JsonView::Object(seq![(key@, value@)]),
    {
        let mut fields: Vec<(String, Json)> = Vec::new();
        fields.push((key.to_string(), value));
        proof {
            Self::lemma_object_view(fields);
            assert(view_fields(fields@) =~= seq![(key@, value@)]);
        }
        Json::Object(fields)
    }

    /// Appends the field `key: value` to an object under construction.
    pub fn push_field(fields: &mut Vec<(String, Json)>, key: &str, value: Json)
        ensures
            view_fields(final(fields)@) == view_fields(old(fields)@).push((key@, value@)),
    {
        fields.push((key.to_string(), value));
        assert(view_fields(fields@) =~= view_fields(old(fields)@).push((key@, value@)));
    }

    /// Wraps a finished field list as an object.
    pub fn object(fields: Vec<(String, Json)>) -> (json: Json)
        ensures
            json@ == JsonView::Object(view_fields(fields@)),
    {
        proof {
            Self::lemma_object_view(fields);
        }
        Json::Object(fields)
    }

    /// Wraps a finished item list as an array.
    pub fn array(items: Vec<Json>) -> (json: Json)
        ensures
            json@ == JsonView::Array(view_items(items@)),
    {
        proof {
            Self::lemma_array_view(items);
        }
        Json::Array(items)
    }

    /// Looks up the first field named `key`. Only objects have fields.
    pub fn get(&self, key: &str) -> (found: Option<&Json>)
        ensures
            view_opt_ref(found) == self@.field(key@),
    {
        match self {
            Json::Object(fields) => {
                proof {
                    Self::lemma_object_view(*fields);
                }
                let mut i: usize = 0;
                while i < fields.len()
                    invariant
                        i <= fields.len(),
                        self@ == JsonView::Object(view_fields(fields@)),
                        JsonView::field_from(view_fields(fields@), key@, 0) == JsonView::field_from(
                            view_fields(fields@),
                            key@,
                            i as int,
                        ),
                    decreases fields.len() - i,
                {
                    if fields[i].0.as_str().eq(key) {
                        return Some(&fields[i].1);
                    }
                    i = i + 1;
                }
                None
            },
            _ => None,
        }
    }

    /// The text of the string field `key`.
    pub fn get_str(&self, key: &str) -> (text: Option<&str>)
        ensures
            match text {
                Some(t) => self@.text_field(key@) == Some(t@),
                None => self@.text_field(key@) is None,
            },
    {
        match self.get(key) {
            Some(value) => value.as_str(),
            None => None,
        }
    }

    /// The text of the string field `key`, or `default` where there is no
    /// such field or it is no string.
    pub fn get_str_or<'a>(&'a self, key: &str, default: &'a str) -> (text: &'a str)
        ensures
            text@ == self@.text_or(key@, default@),
    {
        match self.get_str(key) {
            Some(text) => text,
            None => default,
        }
    }

    /// The number in the field `key` as a signed integer.
    pub fn get_i64(&self, key: &str) -> (n: Option<i64>)
        ensures
            n == self@.i64_field(key@),
    {
        match self.get(key) {
            Some(value) => value.as_i64(),
            None => None,
        }
    }

    /// The number in the field `key` as an unsigned integer.
    pub fn get_u64(&self, key: &str) -> (n: Option<u64>)
        ensures
            n == self@.u64_field(key@),
    {
        match self.get(key) {
            Some(value) => value.as_u64(),
            None => None,
        }
    }

    /// The truth value in the field `key`.
    pub fn get_bool(&self, key: &str) -> (flag: Option<bool>)
        ensures
            flag == self@.bool_field(key@),
    {
        match self.get(key) {
            Some(value) => value.as_bool(),
            None => None,
        }
    }

    /// The items of the array in the field `key`.
    pub fn get_array(&self, key: &str) -> (items: Option<&Vec<Json>>)
        ensures
            match items {
                Some(list) => self@.array_field(key@) == Some(view_items(list@)),
                None => self@.array_field(key@) is None,
            },
    {
        match self.get(key) {
            Some(value) => value.as_array(),
            None => None,
        }
    }

    /// A copy of the field `key`, or `null` where there is none.
    pub fn get_or_null(&self, key: &str) -> (value: Json)
        ensures
            value@ == self@.field_or_null(key@),
    {
        match self.get(key) {
            Some(value) => value.clone(),
            None => Json::Null,
        }
    }

    /// Removes the fields named `key` from an object; every other value is
    /// left as it is.
    pub fn remove_field(&mut self, key: &str)
        ensures
            final(self)@ == old(self)@.without_field(key@),
    {
        let ghost test = |field: (Seq<char>, JsonView)| field.0 != key@;
        let mut taken = Json::Null;
        std::mem::swap(self, &mut taken);
        match taken {
            Json::Object(fields) => {
                let mut fields = fields;
                let ghost before = fields@;
                proof {
                    Self::lemma_object_view(fields);
                }
                let mut kept: Vec<(String, Json)> = Vec::new();
                proof {
                    reveal(Seq::filter);
                    assert(view_fields(before).take(0) =~= Seq::empty());
                    assert(view_fields(kept@) =~= Seq::empty());
                }
                let ghost mut done: int = 0;
                while fields.len() > 0
                    invariant
                        0 <= done <= before.len(),
                        fields.len() + done == before.len(),
                        fields@ == before.subrange(done, before.len() as int),
                        view_fields(kept@) == view_fields(before).take(done).filter(test),
                        test == |field: (Seq<char>, JsonView)| field.0 != key@,
                    decreases fields.len(),
                {
                    let field = fields.remove(0);
                    proof {
                        reveal(Seq::filter);
                        assert(field == before[done]);
                        assert(view_fields(before).take(done + 1).drop_last() =~= view_fields(
                            before,
                        ).take(done));
                        assert(view_fields(before).take(done + 1).last() == (field.0@, field.1@));
                        assert(fields@ =~= before.subrange(done + 1, before.len() as int));
                    }
                    if !field.0.as_str().eq(key) {
                        kept.push(field);
                        proof {
                            assert(view_fields(kept@) =~= view_fields(before).take(done).filter(
                                test,
                            ).push((field.0@, field.1@)));
                        }
                    }
                    proof {
                        done = done + 1;
                    }
                }
                proof {
                    assert(view_fields(before).take(done) =~= view_fields(before));
                }
                *self = Json::object(kept);
            },
            other => {
                *self = other;
            },
        }
    }

    /// The text of a string value.
    pub fn as_str(&self) -> (text: Option<&str>)
        ensures
            match text {
                Some(t) => self@.as_str() == Some(t@),
                None => self@.as_str() is None,
            },
    {
        match self {
            Json::Str(s) => Some(s.as_str()),
            _ => None,
        }
    }

    /// The truth value of a boolean.
    pub fn as_bool(&self) -> (flag: Option<bool>)
        ensures
            flag == self@.as_bool(),
    {
        match self {
            Json::Bool(b) => Some(*b),
            _ => None,
        }
    }

    /// The number as a signed 64-bit integer, where it is an integer in
    /// that range.
    pub fn as_i64(&self) -> (n: Option<i64>)
        ensures
            n == self@.as_i64(),
    {
        match self {
            Json::Number(JsonNumber::PosInt(p)) => {
                if *p <= 9223372036854775807u64 {
                    Some(*p as i64)
                } else {
                    None
                }
            },
            Json::Number(JsonNumber::NegInt(m)) => Some(*m),
            _ => None,
        }
    }

    /// The number as an unsigned 64-bit integer, where it is a non-negative
    /// integer.
    pub fn as_u64(&self) -> (n: Option<u64>)
        ensures
            n == self@.as_u64(),
    {
        match self {
            Json::Number(JsonNumber::PosInt(p)) => Some(*p),
            Json::Number(JsonNumber::NegInt(m)) => {
                if *m >= 0 {
                    Some(*m as u64)
                } else {
                    None
                }
            },
            _ => None,
        }
    }

    /// The items of an array.
    pub fn as_array(&self) -> (items: Option<&Vec<Json>>)
        ensures
            match items {
                Some(list) => self@ == JsonView::Array(view_items(list@)),
                None => !(self@ is Array),
            },
    {
        match self {
            Json::Array(items) => {
                proof {
                    Self::lemma_array_view(*items);
                }
                Some(items)
            },
            _ => None,
        }
    }

    /// The fields of an object.
    pub fn as_object(&self) -> (fields: Option<&Vec<(String, Json)>>)
        ensures
            match fields {
                Some(list) => self@ == JsonView::Object(view_fields(list@)),
                None => !(self@ is Object),
            },
    {
        match self {
            Json::Object(fields) => {
                proof {
                    Self::lemma_object_view(*fields);
                }
                Some(fields)
            },
            _ => None,
        }
    }

    /// Whether the value is `null`.
    pub fn is_null(&self) -> (null: bool)
        ensures
            null == (self@ is Null),
    {
        match self {
            Json::Null => true,
            _ => false,
        }
    }
}

impl Clone for Json {
    /// A deep copy with the same view.
    #[verifier::loop_isolation(false)]
    fn clone(&self) -> (copy: Self)
        ensures
            copy@ == self@,
        decreases self,
    {
        match self {
            Json::Null => Json::Null,
            Json::Bool(b) => Json::Bool(*b),
            Json::Number(n) => Json::Number(*n),
            Json::Str(s) => Json::Str(s.clone()),
            Json::Array(items) => {
                let mut copied: Vec<Json> = Vec::new();
                let mut i: usize = 0;
                while i < items.len()
                    invariant
                        i <= items.len(),
                        copied.len() == i,
                        forall|j: int| 0 <= j < i ==> copied@[j]@ == items@[j]@,
                    decreases items.len() - i,
                {
                    let item = items[i].clone();
                    copied.push(item);
                    i = i + 1;
                }
                proof {
                    Self::lemma_array_view(copied);
                    Self::lemma_array_view(*items);
                    assert(view_items(copied@) =~= view_items(items@));
                }
                Json::Array(copied)
            },
            Json::Object(fields) => {
                let mut copied: Vec<(String, Json)> = Vec::new();
                let mut i: usize = 0;
                while i < fields.len()
                    invariant
                        i <= fields.len(),
                        copied.len() == i,
                        forall|j: int|
                            0 <= j < i ==> copied@[j].0@ == fields@[j].0@ && copied@[j].1@
                                == fields@[j].1@,
                    decreases fields.len() - i,
                {
                    let key = fields[i].0.clone();
                    let value = fields[i].1.clone();
                    copied.push((key, value));
                    i = i + 1;
                }
                proof {
                    Self::lemma_object_view(copied);
                    Self::lemma_object_view(*fields);
                    assert(view_fields(copied@) =~= view_fields(fields@));
                }
                Json::Object(copied)
            },
        }
    }
}

/// The position of the first field named `key`, searching from position
/// `from`; `None` where there is no such field.
pub open spec fn position_from(fields: Seq<(Seq<char>, JsonView)>, key: Seq<char>, from: int) -> Option<
    int,
>
    decreases fields.len() - from,
{
    if from < 0 || from >= fields.len() {
        None
    } else if fields[from].0 == key {
        Some(from)
    } else {
        position_from(fields, key, from + 1)
    }
}

/// Whether there is a field named `key`.
pub open spec fn has_field(fields: Seq<(Seq<char>, JsonView)>, key: Seq<char>) -> bool {
    position_from(fields, key, 0) is Some
}

/// The fields with `key` set to `value`: the first field of that name
/// gets the value, and where there is none the field is added at the end.
pub open spec fn with_field(fields: Seq<(Seq<char>, JsonView)>, key: Seq<char>, value: JsonView) -> Seq<
    (Seq<char>, JsonView),
> {
    match position_from(fields, key, 0) {
        Some(i) => fields.update(i, (key, value)),
        None => fields.push((key, value)),
    }
}

/// The fields with every field of `more` set, one after the other.
pub open spec fn with_fields(fields: Seq<(Seq<char>, JsonView)>, more: Seq<(Seq<char>, JsonView)>) -> Seq<
    (Seq<char>, JsonView),
>
    decreases more.len(),
{
    if more.len() == 0 {
        fields
    } else {
        with_field(with_fields(fields, more.drop_last()), more.last().0, more.last().1)
    }
}

/// The fields with those fields of `more` added, one after the other,
/// whose name is not taken yet.
pub open spec fn with_new_fields(fields: Seq<(Seq<char>, JsonView)>, more: Seq<(Seq<char>, JsonView)>) -> Seq<
    (Seq<char>, JsonView),
>
    decreases more.len(),
{
    if more.len() == 0 {
        fields
    } else {
        let before = with_new_fields(fields, more.drop_last());
        if has_field(before, more.last().0) {
            before
        } else {
            before.push(more.last())
        }
    }
}

/// The position of the first field named `key`.
pub fn find_field(fields: &Vec<(String, Json)>, key: &str) -> (found: Option<usize>)
    ensures
        match found {
            Some(i) => position_from(view_fields(fields@), key@, 0) == Some(i as int) && i
                < fields.len(),
            None => position_from(view_fields(fields@), key@, 0) is None,
        },
{
    let mut i: usize = 0;
    while i < fields.len()
        invariant
            i <= fields.len(),
            position_from(view_fields(fields@), key@, 0) == position_from(
                view_fields(fields@),
                key@,
                i as int,
            ),
        decreases fields.len() - i,
    {
        if fields[i].0.as_str().eq(key) {
            return Some(i);
        }
        i = i + 1;
    }
    None
}

/// Sets the field `key` to `value`.
pub fn set_field(fields: &mut Vec<(String, Json)>, key: &str, value: Json)
    ensures
        view_fields(final(fields)@) == with_field(view_fields(old(fields)@), key@, value@),
{
    match find_field(fields, key) {
        Some(i) => {
            let name = key.to_string();
            fields.remove(i);
            fields.insert(i, (name, value));
            assert(view_fields(fields@) =~= view_fields(old(fields)@).update(
                i as int,
                (key@, value@),
            ));
        },
        None => {
            Json::push_field(fields, key, value);
        },
    }
}

/// Sets every field of `more`, one after the other, to a copy of its
/// value.
pub fn set_fields(fields: &mut Vec<(String, Json)>, more: &Vec<(String, Json)>)
    ensures
        view_fields(final(fields)@) == with_fields(view_fields(old(fields)@), view_fields(more@)),
{
    let mut i: usize = 0;
    proof {
        assert(view_fields(more@).take(0) =~= Seq::empty());
    }
    while i < more.len()
        invariant
            i <= more.len(),
            view_fields(fields@) == with_fields(
                view_fields(old(fields)@),
                view_fields(more@).take(i as int),
            ),
        decreases more.len() - i,
    {
        proof {
            assert(view_fields(more@).take(i + 1).drop_last() =~= view_fields(more@).take(i as int));
        }
        set_field(fields, more[i].0.as_str(), more[i].1.clone());
        i = i + 1;
    }
    proof {
        assert(view_fields(more@).take(i as int) =~= view_fields(more@));
    }
}

/// Adds a copy of those fields of `more`, one after the other, whose name
/// is not taken yet.
pub fn add_new_fields(fields: &mut Vec<(String, Json)>, more: &Vec<(String, Json)>)
    ensures
        view_fields(final(fields)@) == with_new_fields(
            view_fields(old(fields)@),
            view_fields(more@),
        ),
{
    let mut i: usize = 0;
    proof {
        assert(view_fields(more@).take(0) =~= Seq::empty());
    }
    while i < more.len()
        invariant
            i <= more.len(),
            view_fields(fields@) == with_new_fields(
                view_fields(old(fields)@),
                view_fields(more@).take(i as int),
            ),
        decreases more.len() - i,
    {
        proof {
            assert(view_fields(more@).take(i + 1).drop_last() =~= view_fields(more@).take(i as int));
            assert(view_fields(more@).take(i + 1).last() == (more@[i as int].0@, more@[i as int].1@));
        }
        if find_field(fields, more[i].0.as_str()).is_none() {
            Json::push_field(fields, more[i].0.as_str(), more[i].1.clone());
        }
        i = i + 1;
    }
    proof {
        assert(view_fields(more@).take(i as int) =~= view_fields(more@));
    }
}

/// Whether `build` can make a value with the given view out of `item`.
pub open spec fn makes<T, F: Fn(&T) -> Json>(build: F, item: T, view: JsonView) -> bool {
    exists|built: Json| build.ensures((&item,), built) && built@ == view
}

/// The place and the fields of the first field named `key`, where that
/// field holds an object.
pub open spec fn object_at(fields: Seq<(Seq<char>, JsonView)>, key: Seq<char>) -> Option<
    (int, Seq<(Seq<char>, JsonView)>),
> {
    match position_from(fields, key, 0) {
        Some(at) => match fields[at].1 {
            JsonView::Object(inner) => Some((at, inner)),
            _ => None,
        },
        None => None,
    }
}

/// The place and the text of the first field named `key`, where that field
/// holds a string.
pub open spec fn text_at(fields: Seq<(Seq<char>, JsonView)>, key: Seq<char>) -> Option<
    (int, Seq<char>),
> {
    match position_from(fields, key, 0) {
        Some(at) => match fields[at].1 {
            JsonView::Str(text) => Some((at, text)),
            _ => None,
        },
        None => None,
    }
}

/// The fields without those named `key`.
pub open spec fn without(fields: Seq<(Seq<char>, JsonView)>, key: Seq<char>) -> Seq<
    (Seq<char>, JsonView),
> {
    fields.filter(|field: (Seq<char>, JsonView)| field.0 != key)
}

/// A position found by name is a position of the list, and holds that
/// name.
pub proof fn lemma_position(fields: Seq<(Seq<char>, JsonView)>, key: Seq<char>, from: int)
    requires
        0 <= from,
    ensures
        match position_from(fields, key, from) {
            Some(at) => from <= at < fields.len() && fields[at].0 == key,
            None => true,
        },
    decreases fields.len() - from,
{
    if from < fields.len() && fields[from].0 != key {
        lemma_position(fields, key, from + 1);
    }
}

/// Takes the object out of the first field named `key`, where that field
/// holds one, and leaves `null` in its place.
pub fn take_object(fields: &mut Vec<(String, Json)>, key: &str) -> (taken: Option<
    (usize, Vec<(String, Json)>),
>)
    ensures
        match taken {
            Some((at, inner)) => {
                &&& object_at(view_fields(old(fields)@), key@) == Some(
                    (at as int, view_fields(inner@)),
                )
                &&& at < old(fields)@.len()
                &&& final(fields)@.len() == old(fields)@.len()
                &&& view_fields(final(fields)@) == view_fields(old(fields)@).update(
                    at as int,
                    (key@, JsonView::Null),
                )
            },
            None => object_at(view_fields(old(fields)@), key@) is None && final(fields)@ == old(
                fields,
            )@,
        },
{
    let at = match find_field(fields, key) {
        Some(at) => at,
        None => {
            return None;
        },
    };
    let is_object = match &fields[at].1 {
        Json::Object(inner) => {
            proof {
                Json::lemma_object_view(*inner);
            }
            true
        },
        _ => false,
    };
    if !is_object {
        return None;
    }
    let (name, value) = fields.remove(at);
    fields.insert(at, (name, Json::Null));
    proof {
        lemma_position(view_fields(old(fields)@), key@, 0);
        assert(view_fields(fields@) =~= view_fields(old(fields)@).update(
            at as int,
            (key@, JsonView::Null),
        ));
    }
    match value {
        Json::Object(inner) => {
            proof {
                Json::lemma_object_view(inner);
            }
            Some((at, inner))
        },
        _ => None,
    }
}

/// Puts a value into the field at a given place, under the given name.
pub fn put_value(fields: &mut Vec<(String, Json)>, at: usize, key: &str, value: Json)
    requires
        at < old(fields)@.len(),
    ensures
        view_fields(final(fields)@) == view_fields(old(fields)@).update(at as int, (key@, value@)),
{
    fields.remove(at);
    fields.insert(at, (key.to_string(), value));
    assert(view_fields(fields@) =~= view_fields(old(fields)@).update(at as int, (key@, value@)));
}

/// The place and a copy of the text of the first field named `key`, where
/// that field holds a string.
pub fn find_text(fields: &Vec<(String, Json)>, key: &str) -> (found: Option<(usize, String)>)
    ensures
        match found {
            Some((at, text)) => text_at(view_fields(fields@), key@) == Some((at as int, text@))
                && at < fields@.len(),
            None => text_at(view_fields(fields@), key@) is None,
        },
{
    match find_field(fields, key) {
        Some(at) => match &fields[at].1 {
            Json::Str(text) => Some((at, text.clone())),
            _ => None,
        },
        None => None,
    }
}

/// Removes the fields named `key`.
pub fn remove_fields(fields: &mut Vec<(String, Json)>, key: &str)
    ensures
        view_fields(final(fields)@) == without(view_fields(old(fields)@), key@),
{
    let mut taken: Vec<(String, Json)> = Vec::new();
    std::mem::swap(fields, &mut taken);
    let mut object = Json::object(taken);
    object.remove_field(key);
    match object {
        Json::Object(kept) => {
            proof {
                Json::lemma_object_view(kept);
            }
            *fields = kept;
        },
        _ => {},
    }
}

/// The array of what `build` makes of every item of a list, in order.
pub fn map_json<T, F: Fn(&T) -> Json>(items: &[T], build: F) -> (json: Json)
    requires
        forall|i: int| 0 <= i < items.len() ==> build.requires((&#[trigger] items@[i],)),
    ensures
        json@ is Array,
        json@->Array_0.len() == items.len(),
        forall|i: int| 0 <= i < items.len() ==> makes(build, items@[i], #[trigger] json@->Array_0[i]),
{
    let mut built: Vec<Json> = Vec::new();
    let mut i: usize = 0;
    while i < items.len()
        invariant
            i <= items.len(),
            built.len() == i,
            forall|j: int| 0 <= j < items.len() ==> build.requires((&#[trigger] items@[j],)),
            forall|j: int| 0 <= j < i ==> build.ensures((&items@[j],), #[trigger] built@[j]),
        decreases items.len() - i,
    {
        let item = build(&items[i]);
        built.push(item);
        i = i + 1;
    }
    let json = Json::array(built);
    proof {
        assert forall|i: int| 0 <= i < items.len() implies makes(
            build,
            items@[i],
            #[trigger] json@->Array_0[i],
        ) by {
            assert(build.ensures((&items@[i],), built@[i]));
            assert(json@->Array_0[i] == built@[i]@);
        }
    }
    json
}

/// An object field that is only written where it has a value.
pub open spec fn opt_field(key: Seq<char>, value: Option<JsonView>) -> Seq<(Seq<char>, JsonView)> {
    match value {
        Some(json) => seq![(key, json)],
        None => Seq::empty(),
    }
}

/// A text as an optional JSON string.
pub open spec fn opt_str(value: Option<Seq<char>>) -> Option<JsonView> {
    match value {
        Some(text) => Some(JsonView::Str(text)),
        None => None,
    }
}

/// An integer as an optional JSON number.
pub open spec fn opt_int(value: Option<int>) -> Option<JsonView> {
    match value {
        Some(n) => Some(JsonView::Number(JsonNumber::of_int(n))),
        None => None,
    }
}

/// A truth value as an optional JSON boolean.
pub open spec fn opt_bool(value: Option<bool>) -> Option<JsonView> {
    match value {
        Some(flag) => Some(JsonView::Bool(flag)),
        None => None,
    }
}

/// A flag that is only written where it is set.
pub open spec fn only_true(value: Option<bool>) -> Option<JsonView> {
    if value == Some(true) {
        Some(JsonView::Bool(true))
    } else {
        None
    }
}

/// An object that is only written where it has fields.
pub open spec fn nonempty_object(fields: Seq<(Seq<char>, JsonView)>) -> Option<JsonView> {
    if fields.len() > 0 {
        Some(JsonView::Object(fields))
    } else {
        None
    }
}

/// A value, or `null` where there is none.
pub open spec fn or_null(value: Option<JsonView>) -> JsonView {
    match value {
        Some(json) => json,
        None => JsonView::Null,
    }
}

/// A list of texts as a JSON array of strings.
pub open spec fn text_array(texts: Seq<Seq<char>>) -> JsonView {
    JsonView::Array(Seq::new(texts.len(), |i: int| JsonView::Str(texts[i])))
}

/// An optional list of texts as an optional JSON array of strings.
pub open spec fn opt_text_array(texts: Option<Vec<String>>) -> Option<JsonView> {
    match texts {
        Some(list) => Some(text_array(views(list@))),
        None => None,
    }
}

/// Appends an object field where it has a value.
pub fn push_opt_field(fields: &mut Vec<(String, Json)>, key: &str, value: Option<Json>)
    ensures
        view_fields(final(fields)@) == view_fields(old(fields)@) + opt_field(key@, view_opt(value)),
{
    match value {
        Some(json) => {
            Json::push_field(fields, key, json);
            assert(view_fields(fields@) =~= view_fields(old(fields)@) + opt_field(
                key@,
                Some(json@),
            ));
        },
        None => {
            assert(view_fields(fields@) =~= view_fields(old(fields)@) + opt_field(key@, None));
        },
    }
}

/// Appends a list of fields to another.
pub fn append_fields(fields: &mut Vec<(String, Json)>, more: Vec<(String, Json)>)
    ensures
        view_fields(final(fields)@) == view_fields(old(fields)@) + view_fields(more@),
{
    let mut more = more;
    let ghost added = more@;
    fields.append(&mut more);
    assert(view_fields(fields@) =~= view_fields(old(fields)@) + view_fields(added));
}

/// A copy of an optional text as an optional JSON string.
pub fn opt_text_json(value: &Option<String>) -> (json: Option<Json>)
    ensures
        view_opt(json) == opt_str(view_text(*value)),
{
    match value {
        Some(text) => Some(Json::Str(text.clone())),
        None => None,
    }
}

/// An optional integer as an optional JSON number.
pub fn opt_int_json(value: Option<i64>) -> (json: Option<Json>)
    ensures
        view_opt(json) == opt_int(
            match value {
                Some(n) => Some(n as int),
                None => None,
            },
        ),
{
    match value {
        Some(n) => Some(Json::integer(n)),
        None => None,
    }
}

/// An optional 32-bit integer as an optional JSON number.
pub fn opt_i32_json(value: Option<i32>) -> (json: Option<Json>)
    ensures
        view_opt(json) == opt_int(
            match value {
                Some(n) => Some(n as int),
                None => None,
            },
        ),
{
    match value {
        Some(n) => Some(Json::integer(n as i64)),
        None => None,
    }
}

/// An optional truth value as an optional JSON boolean.
pub fn opt_bool_json(value: Option<bool>) -> (json: Option<Json>)
    ensures
        view_opt(json) == opt_bool(value),
{
    match value {
        Some(flag) => Some(Json::Bool(flag)),
        None => None,
    }
}

/// A flag as a JSON boolean where it is set, and nothing where it is not.
pub fn only_true_json(value: Option<bool>) -> (json: Option<Json>)
    ensures
        view_opt(json) == only_true(value),
{
    match value {
        Some(true) => Some(Json::Bool(true)),
        _ => None,
    }
}

/// The object of the given fields where there are any, and nothing where
/// there are none.
pub fn nonempty_object_json(fields: Vec<(String, Json)>) -> (json: Option<Json>)
    ensures
        view_opt(json) == nonempty_object(view_fields(fields@)),
{
    if fields.len() > 0 {
        Some(Json::object(fields))
    } else {
        None
    }
}

/// A value, or `null` where there is none.
pub fn or_null_json(value: Option<Json>) -> (json: Json)
    ensures
        json@ == or_null(view_opt(value)),
{
    match value {
        Some(json) => json,
        None => Json::Null,
    }
}

/// A list of texts as a JSON array of strings.
pub fn text_array_json(texts: &Vec<String>) -> (json: Json)
    ensures
        json@ == text_array(views(texts@)),
{
    let mut items: Vec<Json> = Vec::new();
    let mut i: usize = 0;
    while i < texts.len()
        invariant
            i <= texts.len(),
            items.len() == i,
            forall|j: int| 0 <= j < i ==> items@[j]@ == JsonView::Str(texts@[j]@),
        decreases texts.len() - i,
    {
        items.push(Json::Str(texts[i].clone()));
        i = i + 1;
    }
    proof {
        assert(view_items(items@) =~= text_array(views(texts@))->Array_0);
    }
    Json::array(items)
}

/// An optional list of texts as an optional JSON array of strings.
pub fn opt_text_array_json(texts: &Option<Vec<String>>) -> (json: Option<Json>)
    ensures
        view_opt(json) == opt_text_array(*texts),
{
    match texts {
        Some(list) => Some(text_array_json(list)),
        None => None,
    }
}

/// An optional text as a JSON string, or `null` where there is none.
pub open spec fn text_or_null(text: Option<String>) -> JsonView {
    or_null(opt_str(view_text(text)))
}

/// An optional list of texts as a JSON array, or `null` where there is
/// none.
pub open spec fn texts_or_null(texts: Option<Vec<String>>) -> JsonView {
    or_null(opt_text_array(texts))
}

/// An optional integer as a JSON number, or `null` where there is none.
pub open spec fn int_or_null(value: Option<int>) -> JsonView {
    or_null(opt_int(value))
}

/// An optional truth value as a JSON boolean, or `null` where there is
/// none.
pub open spec fn bool_or_null(value: Option<bool>) -> JsonView {
    or_null(opt_bool(value))
}

/// An optional text as a JSON string, or `null` where there is none.
pub fn text_or_null_json(text: &Option<String>) -> (json: Json)
    ensures
        json@ == text_or_null(*text),
{
    or_null_json(opt_text_json(text))
}

/// An optional list of texts as a JSON array, or `null` where there is
/// none.
pub fn texts_or_null_json(texts: &Option<Vec<String>>) -> (json: Json)
    ensures
        json@ == texts_or_null(*texts),
{
    or_null_json(opt_text_array_json(texts))
}

/// An optional integer as a JSON number, or `null` where there is none.
pub fn int_or_null_json(value: Option<i64>) -> (json: Json)
    ensures
        json@ == int_or_null(
            match value {
                Some(n) => Some(n as int),
                None => None,
            },
        ),
{
    or_null_json(opt_int_json(value))
}

/// An optional 32-bit integer as a JSON number, or `null` where there is
/// none.
pub fn i32_or_null_json(value: Option<i32>) -> (json: Json)
    ensures
        json@ == int_or_null(
            match value {
                Some(n) => Some(n as int),
                None => None,
            },
        ),
{
    or_null_json(opt_i32_json(value))
}

/// An optional truth value as a JSON boolean, or `null` where there is
/// none.
pub fn bool_or_null_json(value: Option<bool>) -> (json: Json)
    ensures
        json@ == bool_or_null(value),
{
    or_null_json(opt_bool_json(value))
}

} // verus!
