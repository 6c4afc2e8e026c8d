//! JSON values: numbers keep the exact form that they were written in, and an
//! object keeps its entries in the order in which they were added.

use crate::text;
use vstd::prelude::*;

verus! {

/// A JSON number: an integer of 64 bits, or the bits of a binary64 number.
#[derive(Debug, Clone, Copy, PartialEq, Eq, Structural)]
pub enum JsonNumber {
    PosInt(u64),
    NegInt(i64),
    Float(u64),
}

impl DeepView for JsonNumber {
    type V = JsonNumber;

    open spec fn deep_view(&self) -> JsonNumber {
        *self
    }
}

/// A JSON value.
#[derive(Debug, PartialEq, Eq)]
pub enum Json {
    Null,
    Bool(bool),
    Number(JsonNumber),
    Text(String),
    Array(Vec<Json>),
    Object(Vec<(String, Json)>),
}

/// The model of a [`Json`] value.
#[verifier::ext_equal]
pub enum JsonV {
    Null,
    Bool(bool),
    Number(JsonNumber),
    Text(Seq<char>),
    Array(Seq<JsonV>),
    Object(Seq<(Seq<char>, JsonV)>),
}

/// The model of `json`.
pub open spec fn json_view(json: Json) -> JsonV
    decreases json,
{
    match json {
        Json::Null => JsonV::Null,
        Json::Bool(b) => JsonV::Bool(b),
        Json::Number(n) => JsonV::Number(n),
        Json::Text(s) => JsonV::Text(s@),
        Json::Array(items) => JsonV::Array(
            Seq::new(
                items@.len(),
                |i: int|
                    if 0 <= i < items@.len() {
                        json_view(items@[i])
                    } else {
                        JsonV::Null
                    },
            ),
        ),
        Json::Object(entries) => JsonV::Object(
            Seq::new(
                entries@.len(),
                |i: int|
                    if 0 <= i < entries@.len() {
                        (entries@[i].0@, json_view(entries@[i].1))
                    } else {
                        (Seq::empty(), JsonV::Null)
                    },
            ),
        ),
    }
}

impl DeepView for Json {
    type V = JsonV;

    open spec fn deep_view(&self) -> JsonV {
        json_view(*self)
    }
}

/// The value of the first entry with the key `key`.
pub open spec fn entry(entries: Seq<(Seq<char>, JsonV)>, key: Seq<char>) -> Option<JsonV>
    decreases entries.len(),
{
    if entries.len() == 0 {
        None
    } else if entries[0].0 == key {
        Some(entries[0].1)
    } else {
        entry(entries.drop_first(), key)
    }
}

impl JsonV {
    /// What an object holds under `key`; nothing of any other value.
    pub open spec fn get(self, key: Seq<char>) -> Option<JsonV> {
        match self {
            JsonV::Object(entries) => entry(entries, key),
            _ => None,
        }
    }

    /// The text of a text value.
    pub open spec fn as_str(self) -> Option<Seq<char>> {
        match self {
            JsonV::Text(s) => Some(s),
            _ => None,
        }
    }

    /// The value of a boolean.
    pub open spec fn as_bool(self) -> Option<bool> {
        match self {
            JsonV::Bool(b) => Some(b),
            _ => None,
        }
    }

    /// The value of an integer that fits in 64 bits with a sign.
    pub open spec fn as_i64(self) -> Option<i64> {
        match self {
            JsonV::Number(JsonNumber::PosInt(n)) => if n <= i64::MAX {
                Some(n as i64)
            } else {
                None
            },
            JsonV::Number(JsonNumber::NegInt(n)) => Some(n),
            _ => None,
        }
    }

    /// The text that an object holds under `key`.
    pub open spec fn str_at(self, key: Seq<char>) -> Option<Seq<char>> {
        match self.get(key) {
            Some(v) => v.as_str(),
            None => None,
        }
    }

    /// The boolean that an object holds under `key`.
    pub open spec fn bool_at(self, key: Seq<char>) -> Option<bool> {
        match self.get(key) {
            Some(v) => v.as_bool(),
            None => None,
        }
    }

    /// The integer that an object holds under `key`.
    pub open spec fn i64_at(self, key: Seq<char>) -> Option<i64> {
        match self.get(key) {
            Some(v) => v.as_i64(),
            None => None,
        }
    }

    /// What stands under `b` in the object that stands under `a`.
    pub open spec fn get2(self, a: Seq<char>, b: Seq<char>) -> Option<JsonV> {
        match self.get(a) {
            Some(v) => v.get(b),
            None => None,
        }
    }
}

proof fn lemma_entry_skip(entries: Seq<(Seq<char>, JsonV)>, key: Seq<char>, n: int)
    requires
        0 <= n <= entries.len(),
        forall|i: int| 0 <= i < n ==> (#[trigger] entries[i]).0 != key,
    ensures
        entry(entries, key) == entry(entries.skip(n), key),
    decreases n,
{
    if n == 0 {
        assert(entries.skip(0) =~= entries);
    } else {
        assert(entries[0].0 != key);
        let rest = entries.drop_first();
        assert forall|i: int| 0 <= i < n - 1 implies (#[trigger] rest[i]).0 != key by {
            assert(entries[i + 1].0 != key);
        }
        lemma_entry_skip(rest, key, n - 1);
        assert(rest.skip(n - 1) =~= entries.skip(n));
    }
}

/// The position of the first entry with the key `key`, or the number of
/// entries where there is none.
pub open spec fn position(entries: Seq<(Seq<char>, JsonV)>, key: Seq<char>) -> int
    decreases entries.len(),
{
    if entries.len() == 0 || entries[0].0 == key {
        0
    } else {
        1 + position(entries.drop_first(), key)
    }
}

/// The entries of an object after `key` was set to `value`: an entry that
/// exists keeps its place, and a new one goes to the end.
pub open spec fn with_entry(
    entries: Seq<(Seq<char>, JsonV)>,
    key: Seq<char>,
    value: JsonV,
) -> Seq<(Seq<char>, JsonV)> {
    if position(entries, key) < entries.len() {
        entries.update(position(entries, key), (key, value))
    } else {
        entries.push((key, value))
    }
}

/// A position lies among the entries, or right behind them.
pub proof fn lemma_position_range(entries: Seq<(Seq<char>, JsonV)>, key: Seq<char>)
    ensures
        0 <= position(entries, key) <= entries.len(),
        position(entries, key) < entries.len() ==> entries[position(entries, key)].0 == key,
    decreases entries.len(),
{
    if entries.len() > 0 && entries[0].0 != key {
        lemma_position_range(entries.drop_first(), key);
    }
}

proof fn lemma_position(entries: Seq<(Seq<char>, JsonV)>, key: Seq<char>, n: int)
    requires
        0 <= n <= entries.len(),
        forall|i: int| 0 <= i < n ==> (#[trigger] entries[i]).0 != key,
        n < entries.len() ==> entries[n].0 == key,
    ensures
        position(entries, key) == n,
    decreases n,
{
    if n > 0 {
        assert(entries[0].0 != key);
        let rest = entries.drop_first();
        assert forall|i: int| 0 <= i < n - 1 implies (#[trigger] rest[i]).0 != key by {
            assert(entries[i + 1].0 != key);
        }
        if n < entries.len() {
            assert(rest[n - 1] == entries[n]);
        }
        lemma_position(rest, key, n - 1);
    }
}

/// Sets `key` to `value` among the entries of an object.
pub fn put(entries: &mut Vec<(String, Json)>, key: String, value: Json)
    ensures
        final(entries).deep_view() == with_entry(
            old(entries).deep_view(),
            key@,
            value.deep_view(),
        ),
{
    let ghost all = entries.deep_view();
    let mut i: usize = 0;
    while i < entries.len() && !text::same(entries[i].0.as_str(), key.as_str())
        invariant
            i <= entries@.len(),
            all == entries.deep_view(),
            forall|j: int| 0 <= j < i ==> (#[trigger] all[j]).0 != key@,
        decreases entries@.len() - i,
    {
        assert(all[i as int].0 == entries@[i as int].0@);
        i = i + 1;
    }
    proof {
        if i < all.len() {
            assert(all[i as int].0 == entries@[i as int].0@);
        }
        lemma_position(all, key@, i as int);
    }
    if i < entries.len() {
        entries.set(i, (key, value));
        proof {
            assert(entries.deep_view() =~= all.update(i as int, (key@, value.deep_view())));
        }
    } else {
        entries.push((key, value));
        proof {
            assert(entries.deep_view() =~= all.push((key@, value.deep_view())));
        }
    }
}

/// The object with the entries `entries`.
pub fn object(entries: Vec<(String, Json)>) -> (r: Json)
    ensures
        r.deep_view() == JsonV::Object(entries.deep_view()),
{
    let ghost all = entries.deep_view();
    let r = Json::Object(entries);
    proof {
        assert(r.deep_view()->Object_0 =~= all);
    }
    r
}

/// The array of the values `items`.
pub fn array(items: Vec<Json>) -> (r: Json)
    ensures
        r.deep_view() == JsonV::Array(items.deep_view()),
{
    let ghost all = items.deep_view();
    let r = Json::Array(items);
    proof {
        assert(r.deep_view()->Array_0 =~= all);
    }
    r
}

/// The object with one entry.
pub fn object_of(key: &str, value: Json) -> (r: Json)
    ensures
        r.deep_view() == JsonV::Object(seq![(key@, value.deep_view())]),
{
    let mut entries: Vec<(String, Json)> = Vec::new();
    entries.push((key.to_owned(), value));
    proof {
        assert(entries.deep_view() =~= seq![(key@, value.deep_view())]);
    }
    object(entries)
}

impl Json {
    /// What an object holds under `key`; nothing of any other value.
    pub fn get(&self, key: &str) -> (r: Option<&Json>)
        ensures
            match r {
                Some(v) => self.deep_view().get(key@) == Some(v.deep_view()),
                None => self.deep_view().get(key@) is None,
            },
    {
        match self {
            Json::Object(entries) => {
                let ghost all = self.deep_view()->Object_0;
                let mut i: usize = 0;
                while i < entries.len()
                    invariant
                        *self == Json::Object(*entries),
                        all == self.deep_view()->Object_0,
                        i <= entries@.len(),
                        all.len() == entries@.len(),
                        forall|j: int| 0 <= j < i ==> (#[trigger] all[j]).0 != key@,
                    decreases entries@.len() - i,
                {
                    assert(all[i as int] == (entries@[i as int].0@, entries@[i as int].1.deep_view()));
                    if text::same(entries[i].0.as_str(), key) {
                        proof {
                            lemma_entry_skip(all, key@, i as int);
                            assert(all.skip(i as int)[0] == all[i as int]);
                        }
                        return Some(&entries[i].1);
                    }
                    i = i + 1;
                }
                proof {
                    lemma_entry_skip(all, key@, all.len() as int);
                }
                None
            },
            _ => None,
        }
    }

    /// The text of a text value.
    pub fn as_str(&self) -> (r: Option<&str>)
        ensures
            match r {
                Some(s) => self.deep_view().as_str() == Some(s@),
                None => self.deep_view().as_str() is None,
            },
    {
        match self {
            Json::Text(s) => Some(s.as_str()),
            _ => None,
        }
    }

    /// The value of a boolean.
    pub fn as_bool(&self) -> (r: Option<bool>)
        ensures
            r == self.deep_view().as_bool(),
    {
        match self {
            Json::Bool(b) => Some(*b),
            _ => None,
        }
    }

    /// The value of an integer that fits in 64 bits with a sign.
    pub fn as_i64(&self) -> (r: Option<i64>)
        ensures
            r == self.deep_view().as_i64(),
    {
        match self {
            Json::Number(JsonNumber::PosInt(n)) => {
                if *n <= 0x7fff_ffff_ffff_ffff {
                    Some(*n as i64)
                } else {
                    None
                }
            },
            Json::Number(JsonNumber::NegInt(n)) => Some(*n),
            _ => None,
        }
    }

    /// Whether this is the null value.
    pub fn is_null(&self) -> (r: bool)
        ensures
            r == (self.deep_view() is Null),
    {
        match self {
            Json::Null => true,
            _ => false,
        }
    }

    /// The text that an object holds under `key`.
    pub fn str_at(&self, key: &str) -> (r: Option<String>)
        ensures
            r.deep_view() == self.deep_view().str_at(key@),
    {
        match self.get(key) {
            Some(v) => match v.as_str() {
                Some(s) => Some(s.to_owned()),
                None => None,
            },
            None => None,
        }
    }

    /// Whether an object holds the text `expected` under `key`.
    pub fn has_text(&self, key: &str, expected: &str) -> (r: bool)
        ensures
            r == (self.deep_view().str_at(key@) == Some(expected@)),
    {
        match self.get(key) {
            Some(v) => match v.as_str() {
                Some(s) => text::same(s, expected),
                None => false,
            },
            None => false,
        }
    }

    /// The boolean that an object holds under `key`.
    pub fn bool_at(&self, key: &str) -> (r: Option<bool>)
        ensures
            r == self.deep_view().bool_at(key@),
    {
        match self.get(key) {
            Some(v) => v.as_bool(),
            None => None,
        }
    }

    /// The integer that an object holds under `key`.
    pub fn i64_at(&self, key: &str) -> (r: Option<i64>)
        ensures
            r == self.deep_view().i64_at(key@),
    {
        match self.get(key) {
            Some(v) => v.as_i64(),
            None => None,
        }
    }

    /// What stands under `b` in the object that stands under `a`.
    pub fn get2(&self, a: &str, b: &str) -> (r: Option<&Json>)
        ensures
            match r {
                Some(v) => self.deep_view().get2(a@, b@) == Some(v.deep_view()),
                None => self.deep_view().get2(a@, b@) is None,
            },
    {
        match self.get(a) {
            Some(v) => v.get(b),
            None => None,
        }
    }

    /// A copy of this value.
    pub fn copy(&self) -> (r: Json)
        ensures
            r.deep_view() == self.deep_view(),
        decreases self,
    {
        match self {
            Json::Null => Json::Null,
            Json::Bool(b) => Json::Bool(*b),
            Json::Number(n) => Json::Number(*n),
            Json::Text(s) => Json::Text(s.clone()),
            Json::Array(items) => {
                let mut copied: Vec<Json> = Vec::new();
                let mut i: usize = 0;
                while i < items.len()
                    invariant
                        *self == Json::Array(*items),
                        i <= items@.len(),
                        copied@.len() == i,
                        forall|j: int|
                            0 <= j < i ==> (#[trigger] copied@[j]).deep_view() == items@[j].deep_view(),
                    decreases items@.len() - i,
                {
                    assert(decreases_to!(*self => self->Array_0@[i as int]));
                    let item = items[i].copy();
                    copied.push(item);
                    i = i + 1;
                }
                let r = Json::Array(copied);
                proof {
                    assert(r.deep_view()->Array_0 =~= self.deep_view()->Array_0);
                }
                r
            },
            Json::Object(entries) => {
                let mut copied: Vec<(String, Json)> = Vec::new();
                let mut i: usize = 0;
                while i < entries.len()
                    invariant
                        *self == Json::Object(*entries),
                        i <= entries@.len(),
                        copied@.len() == i,
                        forall|j: int|
                            0 <= j < i ==> (#[trigger] copied@[j]).0@ == entries@[j].0@
                                && copied@[j].1.deep_view() == entries@[j].1.deep_view(),
                    decreases entries@.len() - i,
                {
                    assert(decreases_to!(*self => self->Object_0@[i as int].1));
                    let value = entries[i].1.copy();
                    copied.push((entries[i].0.clone(), value));
                    i = i + 1;
                }
                let r = Json::Object(copied);
                proof {
                    assert(r.deep_view()->Object_0 =~= self.deep_view()->Object_0);
                }
                r
            },
        }
    }
}

/// The value under a key is that of the first entry with the key; without such
/// an entry there is none.
pub proof fn law_first_entry_counts(entries: Seq<(Seq<char>, JsonV)>, key: Seq<char>, at: int)
    requires
        0 <= at <= entries.len(),
        forall|k: int| 0 <= k < at ==> (#[trigger] entries[k]).0 != key,
        at < entries.len() ==> entries[at].0 == key,
    ensures
        JsonV::Object(entries).get(key) == if at < entries.len() {
            Some(entries[at].1)
        } else {
            None
        },
    decreases at,
{
    if at > 0 {
        let rest = entries.drop_first();
        assert forall|k: int| 0 <= k < at - 1 implies (#[trigger] rest[k]).0 != key by {
            assert(rest[k] == entries[k + 1]);
        }
        assert(entries[0].0 != key);
        law_first_entry_counts(rest, key, at - 1);
    }
}

/// Only objects hold anything under a key, and each kind of value is read as
/// what it is and as nothing else.
pub proof fn law_values_are_read_as_what_they_are(value: JsonV, key: Seq<char>)
    ensures
        value !is Object ==> value.get(key) is None,
        value matches JsonV::Text(s) ==> value.as_str() == Some(s),
        value !is Text ==> value.as_str() is None,
        value matches JsonV::Bool(b) ==> value.as_bool() == Some(b),
        value !is Bool ==> value.as_bool() is None,
        value !is Number ==> value.as_i64() is None,
        value matches JsonV::Number(JsonNumber::PosInt(n)) ==> value.as_i64() == (if n <= i64::MAX {
            Some(n as i64)
        } else {
            None
        }),
        value matches JsonV::Number(JsonNumber::NegInt(n)) ==> value.as_i64() == Some(n),
{
}

/// A key that is set holds the new value, and every other key what it held
/// before; no key takes up a second entry.
pub proof fn law_set_keys_hold_their_value(
    entries: Seq<(Seq<char>, JsonV)>,
    key: Seq<char>,
    value: JsonV,
    other: Seq<char>,
)
    ensures
        JsonV::Object(with_entry(entries, key, value)).get(key) == Some(value),
        other != key ==> JsonV::Object(with_entry(entries, key, value)).get(other)
            == JsonV::Object(entries).get(other),
        with_entry(entries, key, value).len() == entries.len() + if JsonV::Object(entries).get(
            key,
        ) is Some {
            0int
        } else {
            1int
        },
    decreases entries.len(),
{
    lemma_position_range(entries, key);
    let after = with_entry(entries, key, value);
    if entries.len() == 0 {
        assert(after =~= seq![(key, value)]);
        assert(after.drop_first() =~= Seq::<(Seq<char>, JsonV)>::empty());
        assert(entry(after.drop_first(), other) is None);
    } else if entries[0].0 == key {
        assert(after.drop_first() =~= entries.drop_first());
    } else {
        law_set_keys_hold_their_value(entries.drop_first(), key, value, other);
        lemma_position_range(entries.drop_first(), key);
        assert(after.drop_first() =~= with_entry(entries.drop_first(), key, value));
        assert(after[0] == entries[0]);
    }
}

}
