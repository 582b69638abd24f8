//! JSON values as they go out on the wire.

use vstd::prelude::*;
use vstd::string::*;

use crate::fixed::Micro;
use crate::text::snake_to_camel;

verus! {

/// A JSON value. A decimal is a number of millionths.
#[derive(Debug, PartialEq)]
pub enum Json {
    Null,
    Bool(bool),
    Int(i128),
    Decimal(Micro),
    Text(String),
    List(Vec<Json>),
    Object(Vec<Field>),
}

/// A key of an object with its value.
#[derive(Debug, PartialEq)]
pub struct Field {
    pub key: String,
    pub value: Json,
}

/// What a [`Json`] value stands for.
#[verifier::ext_equal]
pub enum JsonView {
    Null,
    Bool(bool),
    Int(int),
    Decimal(Micro),
    Text(Seq<char>),
    List(Seq<JsonView>),
    Object(Seq<(Seq<char>, JsonView)>),
}

/// The fields of an object, in order.
pub type Fields = Seq<(Seq<char>, JsonView)>;

/// What a value stands for.
pub open spec fn json_view(j: Json) -> JsonView
    decreases j,
{
    match j {
        Json::Null => JsonView::Null,
        Json::Bool(b) => JsonView::Bool(b),
        Json::Int(n) => JsonView::Int(n as int),
        Json::Decimal(m) => JsonView::Decimal(m),
        Json::Text(s) => JsonView::Text(s@),
        Json::List(v) => JsonView::List(list_view(v@)),
        Json::Object(v) => JsonView::Object(fields_view(v@)),
    }
}

/// What the items of a list stand for.
pub open spec fn list_view(s: Seq<Json>) -> Seq<JsonView>
    decreases s,
{
    Seq::new(
        s.len(),
        |i: int|
            if 0 <= i < s.len() {
                json_view(s[i])
            } else {
                JsonView::Null
            },
    )
}

/// What the fields of an object stand for.
pub open spec fn fields_view(s: Seq<Field>) -> Fields
    decreases s,
{
    Seq::new(
        s.len(),
        |i: int|
            if 0 <= i < s.len() {
                (s[i].key@, json_view(s[i].value))
            } else {
                (Seq::empty(), JsonView::Null)
            },
    )
}

impl View for Json {
    type V = JsonView;

    open spec fn view(&self) -> JsonView {
        json_view(*self)
    }
}

/// `v` with every key of every object in `camelCase`.
pub open spec fn camel_view(v: JsonView) -> JsonView
    decreases v,
{
    match v {
        JsonView::List(s) => JsonView::List(
            Seq::new(
                s.len(),
                |i: int|
                    if 0 <= i < s.len() {
                        camel_view(s[i])
                    } else {
                        JsonView::Null
                    },
            ),
        ),
        JsonView::Object(s) => JsonView::Object(
            Seq::new(
                s.len(),
                |i: int|
                    if 0 <= i < s.len() {
                        (crate::text::camel(s[i].0), camel_view(s[i].1))
                    } else {
                        (Seq::empty(), JsonView::Null)
                    },
            ),
        ),
        _ => v,
    }
}

impl Json {
    /// A copy of the value.
    pub fn copy(&self) -> (r: Json)
        ensures
            r@ == self@,
        decreases self,
    {
        match self {
            Json::Null => Json::Null,
            Json::Bool(b) => Json::Bool(*b),
            Json::Int(n) => Json::Int(*n),
            Json::Decimal(m) => Json::Decimal(*m),
            Json::Text(s) => Json::Text(s.clone()),
            Json::List(v) => {
                let mut out: Vec<Json> = Vec::new();
                let mut i: usize = 0;
                while i < v.len()
                    invariant
                        i <= v@.len(),
                        out@.len() == i,
                        decreases_to!(self => v),
                        forall|k: int| 0 <= k < i ==> json_view(#[trigger] out@[k]) == json_view(v@[k]),
                    decreases v.len() - i,
                {
                    assert(decreases_to!(v => v@));
                    assert(decreases_to!(v@ => v@[i as int]));
                    out.push(v[i].copy());
                    i = i + 1;
                }
                assert(list_view(out@) =~= list_view(v@));
                Json::List(out)
            },
            Json::Object(v) => {
                let mut out: Vec<Field> = Vec::new();
                let mut i: usize = 0;
                while i < v.len()
                    invariant
                        i <= v@.len(),
                        out@.len() == i,
                        decreases_to!(self => v),
                        forall|k: int|
                            0 <= k < i ==> (#[trigger] out@[k]).key@ == v@[k].key@ && json_view(
                                out@[k].value,
                            ) == json_view(v@[k].value),
                    decreases v.len() - i,
                {
                    assert(decreases_to!(v => v@));
                    assert(decreases_to!(v@ => v@[i as int]));
                    assert(decreases_to!(v@[i as int] => v@[i as int].value));
                    out.push(Field { key: v[i].key.clone(), value: v[i].value.copy() });
                    i = i + 1;
                }
                assert(fields_view(out@) =~= fields_view(v@));
                Json::Object(out)
            },
        }
    }

    /// The value with every key of every object in `camelCase`.
    pub fn camel_keys(&self) -> (r: Json)
        ensures
            r@ == camel_view(self@),
        decreases self,
    {
        match self {
            Json::Null => Json::Null,
            Json::Bool(b) => Json::Bool(*b),
            Json::Int(n) => Json::Int(*n),
            Json::Decimal(m) => Json::Decimal(*m),
            Json::Text(s) => Json::Text(s.clone()),
            Json::List(v) => {
                let mut out: Vec<Json> = Vec::new();
                let mut i: usize = 0;
                while i < v.len()
                    invariant
                        i <= v@.len(),
                        out@.len() == i,
                        decreases_to!(self => v),
                        forall|k: int|
                            0 <= k < i ==> json_view(#[trigger] out@[k]) == camel_view(
                                json_view(v@[k]),
                            ),
                    decreases v.len() - i,
                {
                    assert(decreases_to!(v => v@));
                    assert(decreases_to!(v@ => v@[i as int]));
                    out.push(v[i].camel_keys());
                    i = i + 1;
                }
                proof {
                    let s = list_view(v@);
                    let t = camel_view(JsonView::List(s))->List_0;
                    assert(list_view(out@) =~= t);
                }
                Json::List(out)
            },
            Json::Object(v) => {
                let mut out: Vec<Field> = Vec::new();
                let mut i: usize = 0;
                while i < v.len()
                    invariant
                        i <= v@.len(),
                        out@.len() == i,
                        decreases_to!(self => v),
                        forall|k: int|
                            0 <= k < i ==> (#[trigger] out@[k]).key@ == crate::text::camel(
                                v@[k].key@,
                            ) && json_view(out@[k].value) == camel_view(json_view(v@[k].value)),
                    decreases v.len() - i,
                {
                    assert(decreases_to!(v => v@));
                    assert(decreases_to!(v@ => v@[i as int]));
                    assert(decreases_to!(v@[i as int] => v@[i as int].value));
                    out.push(
                        Field {
                            key: snake_to_camel(v[i].key.as_str()),
                            value: v[i].value.camel_keys(),
                        },
                    );
                    i = i + 1;
                }
                proof {
                    let s = fields_view(v@);
                    let t = camel_view(JsonView::Object(s))->Object_0;
                    assert(fields_view(out@) =~= t);
                }
                Json::Object(out)
            },
        }
    }
}

/// First place at or after `from` of a key, the length where there is none.
pub open spec fn key_place(f: Fields, key: Seq<char>, from: int) -> int
    decreases f.len() - from,
{
    if from >= f.len() {
        f.len() as int
    } else if f[from].0 == key {
        from
    } else {
        key_place(f, key, from + 1)
    }
}

/// Whether an object has a key.
pub open spec fn has_key(f: Fields, key: Seq<char>) -> bool {
    key_place(f, key, 0) < f.len()
}

/// The value under a key.
pub open spec fn value_at(f: Fields, key: Seq<char>) -> JsonView {
    f[key_place(f, key, 0)].1
}

/// The fields with a key set: in its place where it is there, else at the end.
pub open spec fn with_key(f: Fields, key: Seq<char>, value: JsonView) -> Fields {
    if has_key(f, key) {
        f.update(key_place(f, key, 0), (key, value))
    } else {
        f.push((key, value))
    }
}

/// The fields with every key of `extra` set, in their order.
pub open spec fn with_all(f: Fields, extra: Fields) -> Fields
    decreases extra.len(),
{
    if extra.len() == 0 {
        f
    } else {
        with_key(with_all(f, extra.drop_last()), extra.last().0, extra.last().1)
    }
}

/// A key that was set is found with its value.
pub proof fn a_key_that_was_set_is_found(f: Fields, key: Seq<char>, value: JsonView)
    ensures
        has_key(with_key(f, key, value), key),
        value_at(with_key(f, key, value), key) == value,
{
    let g = with_key(f, key, value);
    let p = if has_key(f, key) {
        key_place(f, key, 0)
    } else {
        f.len() as int
    };
    lemma_key_place(f, key, 0);
    lemma_first_place(g, key, 0, p);
}

/// Setting a key leaves every other key as it was.
pub proof fn setting_a_key_keeps_the_others(
    f: Fields,
    key: Seq<char>,
    value: JsonView,
    other: Seq<char>,
)
    requires
        other != key,
    ensures
        has_key(with_key(f, key, value), other) == has_key(f, other),
        has_key(f, other) ==> value_at(with_key(f, key, value), other) == value_at(f, other),
{
    let g = with_key(f, key, value);
    lemma_key_place(f, key, 0);
    lemma_key_place(f, other, 0);
    lemma_key_place(g, other, 0);
    if has_key(f, other) {
        lemma_first_place(g, other, 0, key_place(f, other, 0));
    } else if has_key(g, other) {
        let p = key_place(g, other, 0);
        assert(g[p].0 == other);
        assert(p < f.len());
        assert(f[p].0 == other);
    }
}

/// Setting keys takes none away, and those that are not set keep their values.
pub proof fn setting_keys_removes_none(f: Fields, extra: Fields, key: Seq<char>)
    requires
        has_key(f, key),
    ensures
        has_key(with_all(f, extra), key),
        !has_key(extra, key) ==> value_at(with_all(f, extra), key) == value_at(f, key),
    decreases extra.len(),
{
    if extra.len() > 0 {
        let rest = with_all(f, extra.drop_last());
        setting_keys_removes_none(f, extra.drop_last(), key);
        a_key_is_there_where_a_field_has_it(extra, key);
        a_key_is_there_where_a_field_has_it(extra.drop_last(), key);
        if !has_key(extra, key) && has_key(extra.drop_last(), key) {
            let i = key_place(extra.drop_last(), key, 0);
            assert(extra[i].0 == key);
        }
        if extra.last().0 == key {
            a_key_that_was_set_is_found(rest, key, extra.last().1);
            assert(extra[extra.len() - 1].0 == key);
        } else {
            setting_a_key_keeps_the_others(rest, extra.last().0, extra.last().1, key);
        }
    }
}

/// Keys that were set are found with their values, as far as they were not set again.
pub proof fn keys_that_were_set_are_found(f: Fields, extra: Fields, k: int)
    requires
        0 <= k < extra.len(),
        forall|i: int| k < i < extra.len() ==> (#[trigger] extra[i]).0 != extra[k].0,
    ensures
        has_key(with_all(f, extra), extra[k].0),
        value_at(with_all(f, extra), extra[k].0) == extra[k].1,
    decreases extra.len(),
{
    let front = extra.drop_last();
    let rest = with_all(f, front);
    if k == extra.len() - 1 {
        a_key_that_was_set_is_found(rest, extra[k].0, extra[k].1);
    } else {
        assert forall|i: int| k < i < front.len() implies (#[trigger] front[i]).0 != front[k].0 by {
            assert(front[i] == extra[i]);
        }
        keys_that_were_set_are_found(f, front, k);
        assert(extra[extra.len() - 1].0 != extra[k].0);
        setting_a_key_keeps_the_others(rest, extra.last().0, extra.last().1, extra[k].0);
    }
}

/// A key is there exactly where some field has it, and is found in a place that
/// holds it.
pub proof fn a_key_is_there_where_a_field_has_it(f: Fields, key: Seq<char>)
    ensures
        has_key(f, key) == exists|i: int| 0 <= i < f.len() && (#[trigger] f[i]).0 == key,
        0 <= key_place(f, key, 0) <= f.len(),
        has_key(f, key) ==> f[key_place(f, key, 0)].0 == key,
{
    lemma_key_place(f, key, 0);
}

/// A found key is the first of its kind.
proof fn lemma_key_place(f: Fields, key: Seq<char>, from: int)
    requires
        0 <= from <= f.len(),
    ensures
        from <= key_place(f, key, from) <= f.len(),
        key_place(f, key, from) < f.len() ==> f[key_place(f, key, from)].0 == key,
        forall|i: int| from <= i < key_place(f, key, from) ==> (#[trigger] f[i]).0 != key,
    decreases f.len() - from,
{
    if from < f.len() && f[from].0 != key {
        lemma_key_place(f, key, from + 1);
    }
}

/// The first place that holds a key is where it is found.
proof fn lemma_first_place(f: Fields, key: Seq<char>, from: int, p: int)
    requires
        0 <= from <= p < f.len(),
        f[p].0 == key,
        forall|i: int| from <= i < p ==> (#[trigger] f[i]).0 != key,
    ensures
        key_place(f, key, from) == p,
    decreases p - from,
{
    if from < p {
        lemma_first_place(f, key, from + 1, p);
    }
}

/// An object that is being put together.
pub struct Record {
    fields: Vec<Field>,
}

impl View for Record {
    type V = Fields;

    closed spec fn view(&self) -> Fields {
        fields_view(self.fields@)
    }
}

impl Record {
    /// An object without fields.
    pub fn new() -> (r: Self)
        ensures
            r@ == Fields::empty(),
    {
        let r: Record = Record { fields: Vec::new() };
        assert(r@ =~= Fields::empty());
        r
    }

    /// Puts a field behind the others.
    pub fn push(&mut self, key: &str, value: Json)
        ensures
            final(self)@ == old(self)@.push((key@, value@)),
    {
        let ghost before = self@;
        self.fields.push(Field { key: key.to_owned(), value });
        assert(self@ =~= before.push((key@, value@)));
    }

    /// Sets a key.
    pub fn set(&mut self, key: &str, value: Json)
        ensures
            final(self)@ == with_key(old(self)@, key@, value@),
    {
        let ghost before = self@;
        let p: usize = self.find(key);
        if p < self.fields.len() {
            self.fields.set(p, Field { key: key.to_owned(), value });
            assert(self@ =~= before.update(p as int, (key@, value@)));
        } else {
            self.push(key, value);
        }
    }

    /// Sets every key of another object, in their order.
    pub fn set_all(&mut self, extra: &Record)
        ensures
            final(self)@ == with_all(old(self)@, extra@),
    {
        let ghost before = self@;
        let n: usize = extra.len();
        let mut i: usize = 0;
        while i < n
            invariant
                i <= n,
                n == extra@.len(),
                self@ == with_all(before, extra@.take(i as int)),
            decreases n - i,
        {
            proof {
                assert(extra@.take(i + 1).drop_last() =~= extra@.take(i as int));
            }
            let field: &Field = extra.field(i);
            self.set(field.key.as_str(), field.value.copy());
            i = i + 1;
        }
        assert(extra@.take(i as int) =~= extra@);
    }

    /// Whether a key is there.
    pub fn has(&self, key: &str) -> (r: bool)
        ensures
            r == has_key(self@, key@),
    {
        self.find(key) < self.fields.len()
    }

    /// How many fields there are.
    pub fn len(&self) -> (r: usize)
        ensures
            r == self@.len(),
    {
        self.fields.len()
    }

    /// The field at a place.
    pub fn field(&self, i: usize) -> (r: &Field)
        requires
            i < self@.len(),
        ensures
            (r.key@, r.value@) == self@[i as int],
    {
        &self.fields[i]
    }

    fn find(&self, key: &str) -> (r: usize)
        ensures
            r == key_place(self@, key@, 0),
            r <= self@.len(),
    {
        let wanted: String = key.to_owned();
        let mut p: usize = 0;
        while p < self.fields.len() && self.fields[p].key != wanted
            invariant
                wanted@ == key@,
                p <= self.fields@.len(),
                self@.len() == self.fields@.len(),
                key_place(self@, key@, 0) == key_place(self@, key@, p as int),
            decreases self.fields.len() - p,
        {
            p = p + 1;
        }
        p
    }

    /// The finished object.
    pub fn into_json(self) -> (r: Json)
        ensures
            r@ == JsonView::Object(self@),
    {
        Json::Object(self.fields)
    }
}

} // verus!
