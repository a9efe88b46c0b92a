//! JSON values, as the library builds and reads them.
//!
//! [`Json`] is a plain tree. Its view, [`JsonView`], takes an object as a map from keys to
//! values. Text is turned into values and back by `serde_json`.

use crate::text;
use vstd::prelude::*;

verus! {

/// `serde_json::Value`, carried as an opaque value.
#[verifier::external_type_specification]
#[verifier::external_body]
pub struct ExValue(serde_json::Value);

/// `serde_json::Number`, carried as an opaque value.
#[verifier::external_type_specification]
#[verifier::external_body]
pub struct ExNumber(serde_json::Number);

/// A JSON number: an unsigned integer, a negative integer, or the bits of a floating-point number.
pub enum NumberView {
    Unsigned(u64),
    Negative(i64),
    Real(u64),
}

/// The number that a `serde_json::Number` holds.
pub uninterp spec fn number_view(n: serde_json::Number) -> NumberView;

/// Calls `serde_json::Number::as_u64`, which gives the value of an unsigned integer and nothing
/// for any other number.
#[verifier::external_body]
fn unsigned_from_number(n: &serde_json::Number) -> (r: Option<u64>)
    ensures
        r == (match number_view(*n) {
            NumberView::Unsigned(k) => Some(k),
            _ => None,
        }),
{
    n.as_u64()
}

/// Calls `serde_json::Number::from` on an unsigned integer; the number holds that integer.
#[verifier::external_body]
fn number_from_unsigned(n: u64) -> (r: serde_json::Number)
    ensures
        number_view(r) == NumberView::Unsigned(n),
{
    serde_json::Number::from(n)
}

/// `serde_json::Number::clone` gives an equal number.
pub assume_specification[ <serde_json::Number as Clone>::clone ](n: &serde_json::Number) -> (r:
    serde_json::Number)
    ensures
        r == *n,
;

/// A JSON value, mathematically.
pub enum JsonView {
    Null,
    Bool(bool),
    Number(NumberView),
    Text(Seq<char>),
    Array(Seq<JsonView>),
    Object(Map<Seq<char>, JsonView>),
}

impl JsonView {
    /// The member `key` of an object; nothing where there is none or where this is no object.
    pub open spec fn lookup(self, key: Seq<char>) -> Option<JsonView> {
        match self {
            JsonView::Object(m) => if m.dom().contains(key) {
                Some(m[key])
            } else {
                None
            },
            _ => None,
        }
    }

    /// The member `key`, with null for one that is not there.
    pub open spec fn field(self, key: Seq<char>) -> JsonView {
        match self.lookup(key) {
            Some(v) => v,
            None => JsonView::Null,
        }
    }

    /// The first item of an array, with null where there is none.
    pub open spec fn first(self) -> JsonView {
        match self {
            JsonView::Array(items) => if items.len() > 0 {
                items[0]
            } else {
                JsonView::Null
            },
            _ => JsonView::Null,
        }
    }

    /// The text of a string.
    pub open spec fn text(self) -> Option<Seq<char>> {
        match self {
            JsonView::Text(s) => Some(s),
            _ => None,
        }
    }

    /// The items of an array.
    pub open spec fn items(self) -> Option<Seq<JsonView>> {
        match self {
            JsonView::Array(items) => Some(items),
            _ => None,
        }
    }

    /// The items of an array, none for anything else.
    pub open spec fn items_or_none(self) -> Seq<JsonView> {
        match self {
            JsonView::Array(items) => items,
            _ => Seq::empty(),
        }
    }

    /// The value of a truth value.
    pub open spec fn flag(self) -> Option<bool> {
        match self {
            JsonView::Bool(b) => Some(b),
            _ => None,
        }
    }

    /// The value of a number that is an unsigned integer.
    pub open spec fn count(self) -> Option<u64> {
        match self {
            JsonView::Number(NumberView::Unsigned(n)) => Some(n),
            _ => None,
        }
    }

    /// The unsigned integer, with zero for anything else.
    pub open spec fn count_or_zero(self) -> u64 {
        match self.count() {
            Some(n) => n,
            None => 0,
        }
    }

    /// This is an object whose member `key` is `value`.
    pub open spec fn holds(self, key: Seq<char>, value: JsonView) -> bool {
        self matches JsonView::Object(m) && m.dom().contains(key) && m[key] == value
    }

    /// This is an object that has a member `key`.
    pub open spec fn has(self, key: Seq<char>) -> bool {
        self matches JsonView::Object(m) && m.dom().contains(key)
    }

    /// This is an object whose member `key` is an array.
    pub open spec fn has_list(self, key: Seq<char>) -> bool {
        self matches JsonView::Object(m) && m.dom().contains(key) && m[key] is Array
    }

    /// This is an object whose member `key` is an unsigned integer.
    pub open spec fn has_count(self, key: Seq<char>) -> bool {
        self matches JsonView::Object(m) && m.dom().contains(key) && (
        m[key] matches JsonView::Number(NumberView::Unsigned(_)))
    }

    /// The member `key` is `value`; with null, it may also not be there.
    pub open spec fn offers(self, key: Seq<char>, value: JsonView) -> bool {
        self.holds(key, value) || value is Null && !self.has(key)
    }

    /// The member `key` is this text; with nothing given, it is no text or is not there.
    pub open spec fn says(self, key: Seq<char>, s: Option<Seq<char>>) -> bool {
        match s {
            Some(t) => self.holds(key, JsonView::Text(t)),
            None => !(self matches JsonView::Object(m) && m.dom().contains(key)
                && m[key] is Text),
        }
    }

    /// The member `key` is an array of these items; with no items, it may be anything that is no
    /// array, or not be there.
    pub open spec fn lists(self, key: Seq<char>, items: Seq<JsonView>) -> bool {
        self.holds(key, JsonView::Array(items)) || items.len() == 0 && !self.has_list(key)
    }

    /// The member `key` is this unsigned integer; with zero, it may be anything that is no
    /// unsigned integer, or not be there.
    pub open spec fn counts(self, key: Seq<char>, n: u64) -> bool {
        self.holds(key, JsonView::Number(NumberView::Unsigned(n))) || n == 0 && !self.has_count(key)
    }
}

/// The JSON number of an unsigned integer.
pub open spec fn json_count(n: u64) -> JsonView {
    JsonView::Number(NumberView::Unsigned(n))
}

/// The JSON array of some texts.
pub open spec fn json_texts(v: Seq<Seq<char>>) -> JsonView {
    JsonView::Array(v.map_values(|s: Seq<char>| JsonView::Text(s)))
}

/// `m` with the member `key` set where there is a value for it.
pub open spec fn with_optional(
    m: Map<Seq<char>, JsonView>,
    key: Seq<char>,
    value: Option<JsonView>,
) -> Map<Seq<char>, JsonView> {
    match value {
        Some(v) => m.insert(key, v),
        None => m,
    }
}

/// A JSON value.
#[derive(Debug, PartialEq)]
pub enum Json {
    Null,
    Bool(bool),
    Number(serde_json::Number),
    Text(String),
    Array(Vec<Json>),
    Object(JsonObject),
}

/// A JSON object: its members in the order in which they were set.
#[derive(Debug, PartialEq)]
pub struct JsonObject {
    pub entries: Vec<(String, Json)>,
}

impl View for Json {
    type V = JsonView;

    open spec fn view(&self) -> JsonView
        decreases self,
    {
        match *self {
            Json::Null => JsonView::Null,
            Json::Bool(b) => JsonView::Bool(b),
            Json::Number(n) => JsonView::Number(number_view(n)),
            Json::Text(s) => JsonView::Text(s@),
            Json::Array(items) => JsonView::Array(items_view(items@)),
            Json::Object(o) => JsonView::Object(entries_view(o.entries@)),
        }
    }
}

impl View for JsonObject {
    type V = Map<Seq<char>, JsonView>;

    open spec fn view(&self) -> Map<Seq<char>, JsonView> {
        entries_view(self.entries@)
    }
}

/// The views of some values.
pub open spec fn items_view(items: Seq<Json>) -> Seq<JsonView>
    decreases items,
{
    Seq::new(
        items.len(),
        |i: int|
            if 0 <= i < items.len() {
                items[i].view()
            } else {
                JsonView::Null
            },
    )
}

/// The map that some members make up; of two with the same key the later one counts.
pub open spec fn entries_view(entries: Seq<(String, Json)>) -> Map<Seq<char>, JsonView>
    decreases entries,
{
    if entries.len() == 0 {
        Map::empty()
    } else {
        entries_view(entries.drop_last()).insert(entries.last().0@, entries.last().1.view())
    }
}

/// No member before position `i` bears on a key that stands at `i` and nowhere after it.
proof fn lemma_entries_lookup(entries: Seq<(String, Json)>, i: int)
    requires
        0 <= i < entries.len(),
        forall|j: int| i < j < entries.len() ==> entries[j].0@ != entries[i].0@,
    ensures
        entries_view(entries).dom().contains(entries[i].0@),
        entries_view(entries)[entries[i].0@] == entries[i].1@,
    decreases entries.len(),
{
    reveal_with_fuel(entries_view, 2);
    if i < entries.len() - 1 {
        let front = entries.drop_last();
        assert(front[i] == entries[i]);
        assert forall|j: int| i < j < front.len() implies front[j].0@ != front[i].0@ by {
            assert(front[j] == entries[j]);
        }
        lemma_entries_lookup(front, i);
    }
}

/// A key that no member has is not in the map.
proof fn lemma_entries_absent(entries: Seq<(String, Json)>, key: Seq<char>)
    requires
        forall|j: int| 0 <= j < entries.len() ==> entries[j].0@ != key,
    ensures
        !entries_view(entries).dom().contains(key),
    decreases entries.len(),
{
    reveal_with_fuel(entries_view, 2);
    if entries.len() > 0 {
        let front = entries.drop_last();
        assert forall|j: int| 0 <= j < front.len() implies front[j].0@ != key by {
            assert(front[j] == entries[j]);
        }
        lemma_entries_absent(front, key);
        assert(entries.last() == entries[entries.len() - 1]);
    }
}

/// Replacing the last member with a key sets that key.
proof fn lemma_entries_update(entries: Seq<(String, Json)>, i: int, entry: (String, Json))
    requires
        0 <= i < entries.len(),
        entry.0@ == entries[i].0@,
        forall|j: int| i < j < entries.len() ==> entries[j].0@ != entries[i].0@,
    ensures
        entries_view(entries.update(i, entry)) == entries_view(entries).insert(entry.0@, entry.1@),
    decreases entries.len(),
{
    reveal_with_fuel(entries_view, 2);
    let front = entries.drop_last();
    if i == entries.len() - 1 {
        assert(entries.update(i, entry).drop_last() =~= front);
        assert(entries_view(entries.update(i, entry)) =~= entries_view(entries).insert(
            entry.0@,
            entry.1@,
        ));
    } else {
        assert(front[i] == entries[i]);
        assert forall|j: int| i < j < front.len() implies front[j].0@ != front[i].0@ by {
            assert(front[j] == entries[j]);
        }
        lemma_entries_update(front, i, entry);
        assert(entries.update(i, entry).drop_last() =~= front.update(i, entry));
        assert(entries.last() == entries[entries.len() - 1]);
        assert(entries_view(entries.update(i, entry)) =~= entries_view(entries).insert(
            entry.0@,
            entry.1@,
        ));
    }
}

impl JsonObject {
    /// An object without members.
    pub fn new() -> (r: JsonObject)
        ensures
            r@ == Map::<Seq<char>, JsonView>::empty(),
    {
        JsonObject { entries: Vec::new() }
    }

    /// The position of the last member with this key.
    fn position(&self, key: &str) -> (r: Option<usize>)
        ensures
            match r {
                Some(i) => i < self.entries@.len() && self.entries@[i as int].0@ == key@ && forall|
                    j: int,
                |
                    i < j < self.entries@.len() ==> self.entries@[j].0@ != key@,
                None => forall|j: int|
                    0 <= j < self.entries@.len() ==> self.entries@[j].0@ != key@,
            },
    {
        let mut i: usize = self.entries.len();
        while i > 0
            invariant
                i <= self.entries@.len(),
                forall|j: int| i <= j < self.entries@.len() ==> self.entries@[j].0@ != key@,
            decreases i,
        {
            i = i - 1;
            if text::same(self.entries[i].0.as_str(), key) {
                return Some(i);
            }
        }
        None
    }

    /// The member with this key.
    pub fn get(&self, key: &str) -> (r: Option<&Json>)
        ensures
            match r {
                Some(v) => self@.dom().contains(key@) && v@ == self@[key@],
                None => !self@.dom().contains(key@),
            },
    {
        match self.position(key) {
            Some(i) => {
                proof {
                    lemma_entries_lookup(self.entries@, i as int);
                }
                Some(&self.entries[i].1)
            },
            None => {
                proof {
                    lemma_entries_absent(self.entries@, key@);
                }
                None
            },
        }
    }

    /// Sets the member `key`, in the place of one with that key where there is one.
    pub fn set(&mut self, key: &str, value: Json)
        ensures
            final(self)@ == old(self)@.insert(key@, value@),
    {
        match self.position(key) {
            Some(i) => {
                let entry: (String, Json) = (key.to_owned(), value);
                proof {
                    lemma_entries_update(self.entries@, i as int, entry);
                }
                self.entries.set(i, entry);
            },
            None => {
                let ghost before = self.entries@;
                self.entries.push((key.to_owned(), value));
                assert(self.entries@.drop_last() =~= before);
            },
        }
    }

    /// Sets the member `key` where there is a value for it.
    pub fn set_optional(&mut self, key: &str, value: Option<Json>)
        ensures
            final(self)@ == with_optional(old(self)@, key@, json_opt(value)),
    {
        match value {
            Some(v) => self.set(key, v),
            None => {},
        }
    }

    /// Sets every member of `other`.
    pub fn set_all(&mut self, other: &JsonObject)
        ensures
            final(self)@ == old(self)@.union_prefer_right(other@),
    {
        let mut i: usize = 0;
        assert(other.entries@.take(0) =~= Seq::empty());
        assert(self@ =~= old(self)@.union_prefer_right(entries_view(other.entries@.take(0))));
        while i < other.entries.len()
            invariant
                i <= other.entries@.len(),
                self@ == old(self)@.union_prefer_right(entries_view(other.entries@.take(i as int))),
            decreases other.entries@.len() - i,
        {
            let value = other.entries[i].1.duplicate();
            self.set(other.entries[i].0.as_str(), value);
            proof {
                let upto = other.entries@.take(i + 1);
                assert(upto.drop_last() =~= other.entries@.take(i as int));
                assert(self@ =~= old(self)@.union_prefer_right(entries_view(upto)));
            }
            i = i + 1;
        }
        assert(other.entries@.take(i as int) =~= other.entries@);
    }

    /// A copy of the object.
    pub fn duplicate(&self) -> (r: JsonObject)
        ensures
            r@ == self@,
        decreases self,
    {
        JsonObject { entries: duplicate_entries(&self.entries) }
    }
}

/// A real number as a request parameter: the JSON number for it, or nothing where JSON has none
/// (NaN and the infinities).
#[derive(Debug, Clone, PartialEq)]
pub struct Real {
    pub number: Option<serde_json::Number>,
}

/// How a real number stands in JSON: null where JSON has no number for it.
pub open spec fn real_json(r: Real) -> JsonView {
    match r.number {
        Some(n) => JsonView::Number(number_view(n)),
        None => JsonView::Null,
    }
}

/// How an optional real number stands in JSON.
pub open spec fn opt_real_json(o: Option<Real>) -> Option<JsonView> {
    match o {
        Some(r) => Some(real_json(r)),
        None => None,
    }
}

impl Real {
    /// The number as a JSON value.
    pub fn to_json(&self) -> (r: Json)
        ensures
            r@ == real_json(*self),
    {
        match &self.number {
            Some(n) => Json::Number(n.clone()),
            None => Json::Null,
        }
    }
}

/// The view of an optional value.
pub open spec fn json_opt(o: Option<Json>) -> Option<JsonView> {
    match o {
        Some(v) => Some(v@),
        None => None,
    }
}

impl Json {
    /// A JSON string.
    pub fn of_text(s: &str) -> (r: Json)
        ensures
            r@ == JsonView::Text(s@),
    {
        Json::Text(s.to_owned())
    }

    /// A JSON array of strings.
    pub fn of_texts(v: &Vec<String>) -> (r: Json)
        ensures
            r@ == json_texts(text::texts(v@)),
    {
        let mut items: Vec<Json> = Vec::new();
        let mut i: usize = 0;
        while i < v.len()
            invariant
                i <= v@.len(),
                items@.len() == i,
                forall|j: int| 0 <= j < i ==> items@[j]@ == JsonView::Text(v@[j]@),
            decreases v@.len() - i,
        {
            items.push(Json::of_text(v[i].as_str()));
            i = i + 1;
        }
        assert(items_view(items@) =~= text::texts(v@).map_values(|s: Seq<char>| JsonView::Text(s)));
        Json::Array(items)
    }

    /// A JSON number.
    pub fn of_count(n: u64) -> (r: Json)
        ensures
            r@ == json_count(n),
    {
        Json::Number(number_from_unsigned(n))
    }

    /// The member `key`; nothing where this is no object or has no such member.
    pub fn get(&self, key: &str) -> (r: Option<&Json>)
        ensures
            match r {
                Some(v) => self@.lookup(key@) == Some(v@),
                None => self@.lookup(key@) is None,
            },
    {
        match self {
            Json::Object(o) => o.get(key),
            _ => None,
        }
    }

    /// The member `key`, with null for one that is not there.
    pub fn at(&self, key: &str) -> (r: &Json)
        ensures
            r@ == self@.field(key@),
    {
        match self.get(key) {
            Some(v) => v,
            None => &Json::Null,
        }
    }

    /// The first item of an array, with null where there is none.
    pub fn head(&self) -> (r: &Json)
        ensures
            r@ == self@.first(),
    {
        match self {
            Json::Array(items) => {
                assert(items_view(items@).len() == items@.len());
                if items.len() > 0 {
                    assert(items_view(items@)[0] == items@[0]@);
                    &items[0]
                } else {
                    &Json::Null
                }
            },
            _ => &Json::Null,
        }
    }

    /// The text of a string.
    pub fn as_text(&self) -> (r: Option<&str>)
        ensures
            text::opt_str(r) == self@.text(),
    {
        match self {
            Json::Text(s) => Some(s.as_str()),
            _ => None,
        }
    }

    /// The text of a string, `other` for anything else.
    pub fn text_or<'a>(&'a self, other: &'a str) -> (r: &'a str)
        ensures
            r@ == text::text_or(self@.text(), other@),
    {
        match self {
            Json::Text(s) => s.as_str(),
            _ => other,
        }
    }

    /// The unsigned integer that a number holds.
    pub fn as_count(&self) -> (r: Option<u64>)
        ensures
            r == self@.count(),
    {
        match self {
            Json::Number(n) => unsigned_from_number(n),
            _ => None,
        }
    }

    /// The unsigned integer that a number holds, zero for anything else.
    pub fn count_or_zero(&self) -> (r: u64)
        ensures
            r == self@.count_or_zero(),
    {
        match self.as_count() {
            Some(n) => n,
            None => 0,
        }
    }

    /// The truth value.
    pub fn as_flag(&self) -> (r: Option<bool>)
        ensures
            r == self@.flag(),
    {
        match self {
            Json::Bool(b) => Some(*b),
            _ => None,
        }
    }

    /// The items of an array.
    pub fn as_items(&self) -> (r: Option<&Vec<Json>>)
        ensures
            match r {
                Some(v) => self@ == JsonView::Array(items_view(v@)),
                None => self@.items() is None,
            },
    {
        match self {
            Json::Array(items) => Some(items),
            _ => None,
        }
    }

    /// A copy of the value.
    pub fn duplicate(&self) -> (r: Json)
        ensures
            r@ == self@,
        decreases self,
    {
        match self {
            Json::Null => Json::Null,
            Json::Bool(b) => Json::Bool(*b),
            Json::Number(n) => Json::Number(n.clone()),
            Json::Text(s) => Json::Text(s.clone()),
            Json::Array(items) => Json::Array(duplicate_items(items)),
            Json::Object(o) => Json::Object(o.duplicate()),
        }
    }
}

fn duplicate_items(items: &Vec<Json>) -> (r: Vec<Json>)
    ensures
        items_view(r@) == items_view(items@),
    decreases items,
{
    let mut r: Vec<Json> = Vec::new();
    let mut i: usize = 0;
    while i < items.len()
        invariant
            i <= items@.len(),
            r@.len() == i,
            forall|j: int| 0 <= j < i ==> r@[j]@ == items@[j]@,
        decreases items@.len() - i,
    {
        let item = items[i].duplicate();
        r.push(item);
        i = i + 1;
    }
    assert(items_view(r@) =~= items_view(items@));
    r
}

fn duplicate_entries(entries: &Vec<(String, Json)>) -> (r: Vec<(String, Json)>)
    ensures
        entries_view(r@) == entries_view(entries@),
    decreases entries,
{
    let mut r: Vec<(String, Json)> = Vec::new();
    let mut i: usize = 0;
    assert(entries@.take(0) =~= Seq::empty());
    while i < entries.len()
        invariant
            i <= entries@.len(),
            entries_view(r@) == entries_view(entries@.take(i as int)),
        decreases entries@.len() - i,
    {
        let ghost before = r@;
        let value = entries[i].1.duplicate();
        r.push((entries[i].0.clone(), value));
        assert(r@.drop_last() =~= before);
        assert(entries@.take(i + 1).drop_last() =~= entries@.take(i as int));
        i = i + 1;
    }
    assert(entries@.take(i as int) =~= entries@);
    r
}

/// The value that a `serde_json::Value` holds.
pub uninterp spec fn value_json(v: serde_json::Value) -> JsonView;

/// The value that `serde_json::from_str` reads from a text; nothing where it refuses the text.
pub uninterp spec fn json_parsed(text: Seq<char>) -> Option<JsonView>;

/// The text that `serde_json::to_string` writes for a value; nothing where it fails.
pub uninterp spec fn json_rendered(v: JsonView) -> Option<Seq<char>>;

/// The outermost layer of a `serde_json::Value`.
pub enum ValueParts {
    Null,
    Bool(bool),
    Number(serde_json::Number),
    Text(String),
    Array(Vec<serde_json::Value>),
    Object(Vec<(String, serde_json::Value)>),
}

/// The value that the parts make up.
pub open spec fn parts_json(p: ValueParts) -> JsonView {
    match p {
        ValueParts::Null => JsonView::Null,
        ValueParts::Bool(b) => JsonView::Bool(b),
        ValueParts::Number(n) => JsonView::Number(number_view(n)),
        ValueParts::Text(s) => JsonView::Text(s@),
        ValueParts::Array(items) => JsonView::Array(
            items@.map_values(|v: serde_json::Value| value_json(v)),
        ),
        ValueParts::Object(entries) => JsonView::Object(pairs_map(entries@)),
    }
}

/// The map that some members make up; of two with the same key the later one counts.
pub open spec fn pairs_map(entries: Seq<(String, serde_json::Value)>) -> Map<Seq<char>, JsonView>
    decreases entries.len(),
{
    if entries.len() == 0 {
        Map::empty()
    } else {
        pairs_map(entries.drop_last()).insert(entries.last().0@, value_json(entries.last().1))
    }
}

/// The keys of the members are all different.
pub open spec fn distinct_keys(entries: Seq<(String, serde_json::Value)>) -> bool {
    forall|i: int, j: int|
        0 <= i < j < entries.len() ==> #[trigger] entries[i].0@ != #[trigger] entries[j].0@
}

/// Calls `serde_json::from_str` for a `serde_json::Value`. Whether it succeeds, and what the
/// value holds, depends on the text alone.
#[verifier::external_body]
fn parse_value(text: &str) -> (r: Option<serde_json::Value>)
    ensures
        match r {
            Some(v) => json_parsed(text@) == Some(value_json(v)),
            None => json_parsed(text@) is None,
        },
{
    serde_json::from_str::<serde_json::Value>(text).ok()
}

/// Calls `serde_json::to_string` on a `serde_json::Value`. What it writes depends on what the
/// value holds alone: the members of an object come out in the order of their keys.
#[verifier::external_body]
fn render_value(v: &serde_json::Value) -> (r: Option<String>)
    ensures
        text::opt_text(r) == json_rendered(value_json(*v)),
{
    serde_json::to_string(v).ok()
}

/// Takes a `serde_json::Value` apart by its variants. A `serde_json::Map` has each key once.
#[verifier::external_body]
fn open_value(v: serde_json::Value) -> (r: ValueParts)
    ensures
        value_json(v) == parts_json(r),
        r matches ValueParts::Object(entries) ==> distinct_keys(entries@),
{
    match v {
        serde_json::Value::Null => ValueParts::Null,
        serde_json::Value::Bool(b) => ValueParts::Bool(b),
        serde_json::Value::Number(n) => ValueParts::Number(n),
        serde_json::Value::String(s) => ValueParts::Text(s),
        serde_json::Value::Array(items) => ValueParts::Array(items),
        serde_json::Value::Object(map) => ValueParts::Object(map.into_iter().collect()),
    }
}

/// Makes a `serde_json::Value` of its variants' contents. Members with different keys are all in
/// the `serde_json::Map` that they are collected into.
#[verifier::external_body]
fn close_value(p: ValueParts) -> (r: serde_json::Value)
    requires
        p matches ValueParts::Object(entries) ==> distinct_keys(entries@),
    ensures
        value_json(r) == parts_json(p),
{
    match p {
        ValueParts::Null => serde_json::Value::Null,
        ValueParts::Bool(b) => serde_json::Value::Bool(b),
        ValueParts::Number(n) => serde_json::Value::Number(n),
        ValueParts::Text(s) => serde_json::Value::String(s),
        ValueParts::Array(items) => serde_json::Value::Array(items),
        ValueParts::Object(entries) => serde_json::Value::Object(entries.into_iter().collect()),
    }
}

/// With all keys different, every member is in the map.
proof fn lemma_pairs_lookup(entries: Seq<(String, serde_json::Value)>, i: int)
    requires
        distinct_keys(entries),
        0 <= i < entries.len(),
    ensures
        pairs_map(entries).dom().contains(entries[i].0@),
        pairs_map(entries)[entries[i].0@] == value_json(entries[i].1),
        pairs_map(entries).dom().finite(),
    decreases entries.len(),
{
    lemma_pairs_finite(entries);
    if i < entries.len() - 1 {
        let front = entries.drop_last();
        assert(front[i] == entries[i]);
        assert forall|a: int, b: int| 0 <= a < b < front.len() implies #[trigger] front[a].0@
            != #[trigger] front[b].0@ by {
            assert(front[a] == entries[a]);
            assert(front[b] == entries[b]);
        }
        lemma_pairs_lookup(front, i);
        assert(entries.last() == entries[entries.len() - 1]);
    }
}

/// A key that no member has is not in the map.
proof fn lemma_pairs_absent(entries: Seq<(String, serde_json::Value)>, key: Seq<char>)
    requires
        forall|j: int| 0 <= j < entries.len() ==> (#[trigger] entries[j]).0@ != key,
    ensures
        !pairs_map(entries).dom().contains(key),
    decreases entries.len(),
{
    if entries.len() > 0 {
        let front = entries.drop_last();
        assert forall|j: int| 0 <= j < front.len() implies (#[trigger] front[j]).0@ != key by {
            assert(front[j] == entries[j]);
        }
        lemma_pairs_absent(front, key);
        assert(entries.last() == entries[entries.len() - 1]);
    }
}

/// With all keys different, replacing the value of a member sets its key.
proof fn lemma_pairs_update(
    entries: Seq<(String, serde_json::Value)>,
    i: int,
    entry: (String, serde_json::Value),
)
    requires
        distinct_keys(entries),
        0 <= i < entries.len(),
        entry.0@ == entries[i].0@,
    ensures
        distinct_keys(entries.update(i, entry)),
        pairs_map(entries.update(i, entry)) == pairs_map(entries).insert(
            entry.0@,
            value_json(entry.1),
        ),
{
    let after = entries.update(i, entry);
    assert forall|j: int, k: int| 0 <= j < k < after.len() implies #[trigger] after[j].0@
        != #[trigger] after[k].0@ by {
        assert(after[j].0@ == entries[j].0@);
        assert(after[k].0@ == entries[k].0@);
    }
    let left = pairs_map(after);
    let right = pairs_map(entries).insert(entry.0@, value_json(entry.1));
    assert forall|k: Seq<char>| left.dom().contains(k) <==> right.dom().contains(k) by {
        lemma_pairs_member(entries, k);
        lemma_pairs_member(after, k);
        if left.dom().contains(k) {
            let j = choose|j: int| 0 <= j < after.len() && (#[trigger] after[j]).0@ == k;
            assert(entries[j].0@ == k);
        }
        if right.dom().contains(k) && k != entry.0@ {
            let j = choose|j: int| 0 <= j < entries.len() && (#[trigger] entries[j]).0@ == k;
            assert(after[j].0@ == k);
        }
        assert(after[i].0@ == entry.0@);
    }
    assert forall|k: Seq<char>| left.dom().contains(k) implies left[k] == right[k] by {
        lemma_pairs_member(after, k);
        let j = choose|j: int| 0 <= j < after.len() && (#[trigger] after[j]).0@ == k;
        lemma_pairs_lookup(after, j);
        lemma_pairs_lookup(entries, j);
    }
    assert(left =~= right);
}

/// With all keys different, a key is in the map where a member has it.
proof fn lemma_pairs_member(entries: Seq<(String, serde_json::Value)>, key: Seq<char>)
    requires
        distinct_keys(entries),
    ensures
        pairs_map(entries).dom().contains(key) <==> exists|j: int|
            0 <= j < entries.len() && (#[trigger] entries[j]).0@ == key,
{
    if exists|j: int| 0 <= j < entries.len() && (#[trigger] entries[j]).0@ == key {
        let j = choose|j: int| 0 <= j < entries.len() && (#[trigger] entries[j]).0@ == key;
        lemma_pairs_lookup(entries, j);
    } else {
        lemma_pairs_absent(entries, key);
    }
}

proof fn lemma_pairs_finite(entries: Seq<(String, serde_json::Value)>)
    ensures
        pairs_map(entries).dom().finite(),
    decreases entries.len(),
{
    if entries.len() > 0 {
        lemma_pairs_finite(entries.drop_last());
    }
}

/// The value that a `serde_json::Value` holds.
pub fn json_from_value(v: serde_json::Value) -> (r: Json)
    ensures
        r@ == value_json(v),
    decreases value_json(v),
{
    match open_value(v) {
        ValueParts::Null => Json::Null,
        ValueParts::Bool(b) => Json::Bool(b),
        ValueParts::Number(n) => Json::Number(n),
        ValueParts::Text(s) => Json::Text(s),
        ValueParts::Array(items) => {
            let mut out: Vec<Json> = Vec::new();
            let ghost all = items@;
            for item in it: items
                invariant
                    it.seq() == all,
                    value_json(v) == JsonView::Array(
                        all.map_values(|x: serde_json::Value| value_json(x)),
                    ),
                    out@.len() == it.index(),
                    forall|j: int| 0 <= j < out@.len() ==> out@[j]@ == value_json(all[j]),
            {
                proof {
                    let mapped = all.map_values(|x: serde_json::Value| value_json(x));
                    assert(mapped[it.index()] == value_json(item));
                    assert(decreases_to!(value_json(v) => value_json(v)->Array_0));
                    assert(decreases_to!(mapped => mapped[it.index()]));
                }
                let j = json_from_value(item);
                out.push(j);
            }
            assert(items_view(out@) =~= all.map_values(|x: serde_json::Value| value_json(x)));
            Json::Array(out)
        },
        ValueParts::Object(entries) => {
            let mut out = JsonObject::new();
            let ghost all = entries@;
            assert(all.take(0) =~= Seq::empty());
            for entry in it: entries
                invariant
                    it.seq() == all,
                    distinct_keys(all),
                    value_json(v) == JsonView::Object(pairs_map(all)),
                    out@ == pairs_map(all.take(it.index())),
            {
                proof {
                    lemma_pairs_lookup(all, it.index());
                    assert(decreases_to!(value_json(v) => value_json(v)->Object_0));
                    assert(decreases_to!(pairs_map(all) => pairs_map(all)[entry.0@]));
                    assert(all.take(it.index() + 1).drop_last() =~= all.take(it.index()));
                }
                let j = json_from_value(entry.1);
                out.set(entry.0.as_str(), j);
            }
            assert(all.take(all.len() as int) =~= all);
            Json::Object(out)
        },
    }
}

/// A `serde_json::Value` that holds this value.
pub fn value_from_json(j: &Json) -> (r: serde_json::Value)
    ensures
        value_json(r) == j@,
    decreases j,
{
    match j {
        Json::Null => close_value(ValueParts::Null),
        Json::Bool(b) => close_value(ValueParts::Bool(*b)),
        Json::Number(n) => close_value(ValueParts::Number(n.clone())),
        Json::Text(s) => close_value(ValueParts::Text(s.clone())),
        Json::Array(items) => close_value(ValueParts::Array(values_from_items(items))),
        Json::Object(o) => close_value(ValueParts::Object(values_from_entries(&o.entries))),
    }
}

fn values_from_items(items: &Vec<Json>) -> (r: Vec<serde_json::Value>)
    ensures
        r@.map_values(|v: serde_json::Value| value_json(v)) == items_view(items@),
    decreases items,
{
    let mut out: Vec<serde_json::Value> = Vec::new();
    let mut i: usize = 0;
    while i < items.len()
        invariant
            i <= items@.len(),
            out@.len() == i,
            forall|k: int| 0 <= k < i ==> value_json(out@[k]) == items@[k]@,
        decreases items@.len() - i,
    {
        let v = value_from_json(&items[i]);
        out.push(v);
        i = i + 1;
    }
    assert(out@.map_values(|v: serde_json::Value| value_json(v)) =~= items_view(items@));
    out
}

/// Sets a member: the value of the one with this key, or a new one.
fn put_member(members: &mut Vec<(String, serde_json::Value)>, key: &str, value: serde_json::Value)
    requires
        distinct_keys(old(members)@),
    ensures
        distinct_keys(final(members)@),
        pairs_map(final(members)@) == pairs_map(old(members)@).insert(key@, value_json(value)),
{
    let ghost before = members@;
    let mut i: usize = 0;
    while i < members.len()
        invariant
            members@ == before,
            before == old(members)@,
            distinct_keys(before),
            i <= before.len(),
            forall|j: int| 0 <= j < i ==> (#[trigger] before[j]).0@ != key@,
        decreases before.len() - i,
    {
        if text::same(members[i].0.as_str(), key) {
            let entry = (key.to_owned(), value);
            proof {
                lemma_pairs_update(before, i as int, entry);
            }
            members.set(i, entry);
            return;
        }
        i = i + 1;
    }
    members.push((key.to_owned(), value));
    assert(members@.drop_last() =~= before);
}

fn values_from_entries(entries: &Vec<(String, Json)>) -> (r: Vec<(String, serde_json::Value)>)
    ensures
        distinct_keys(r@),
        pairs_map(r@) == entries_view(entries@),
    decreases entries,
{
    let mut out: Vec<(String, serde_json::Value)> = Vec::new();
    let mut i: usize = 0;
    assert(entries@.take(0) =~= Seq::empty());
    while i < entries.len()
        invariant
            i <= entries@.len(),
            distinct_keys(out@),
            pairs_map(out@) == entries_view(entries@.take(i as int)),
        decreases entries@.len() - i,
    {
        let v = value_from_json(&entries[i].1);
        put_member(&mut out, entries[i].0.as_str(), v);
        assert(entries@.take(i + 1).drop_last() =~= entries@.take(i as int));
        i = i + 1;
    }
    assert(entries@.take(i as int) =~= entries@);
    out
}

/// Reads a JSON text.
pub fn parse(text: &str) -> (r: Option<Json>)
    ensures
        json_opt(r) == json_parsed(text@),
{
    match parse_value(text) {
        Some(v) => Some(json_from_value(v)),
        None => None,
    }
}

/// Writes a value as JSON text.
pub fn render(j: &Json) -> (r: Option<String>)
    ensures
        text::opt_text(r) == json_rendered(j@),
{
    render_value(&value_from_json(j))
}

/// A value set where there is one is found again; the other members stay, and without a value all
/// do.
pub proof fn law_optional_members(
    m: Map<Seq<char>, JsonView>,
    key: Seq<char>,
    value: Option<JsonView>,
    other: Seq<char>,
)
    requires
        other != key,
    ensures
        value matches Some(v) ==> JsonView::Object(with_optional(m, key, value)).holds(key, v),
        value is None ==> with_optional(m, key, value) == m,
        with_optional(m, key, value).dom().contains(other) <==> m.dom().contains(other),
        m.dom().contains(other) ==> with_optional(m, key, value)[other] == m[other],
{
}

/// What is read of a member is what stands there; a member that is not there, or that is of
/// another kind, is read as nothing, as null, as no items or as zero.
pub proof fn law_members_are_read(j: JsonView, key: Seq<char>, v: JsonView)
    ensures
        j.holds(key, v) ==> j.lookup(key) == Some(v) && j.field(key) == v,
        !j.has(key) ==> j.lookup(key) is None && j.field(key) is Null,
        forall|s: Option<Seq<char>>| j.says(key, s) ==> #[trigger] j.field(key).text() == s,
        forall|items: Seq<JsonView>|
            j.lists(key, items) ==> #[trigger] j.field(key).items_or_none() == items,
        forall|n: u64| j.counts(key, n) ==> #[trigger] j.field(key).count_or_zero() == n,
        forall|b: bool|
            j.holds(key, JsonView::Bool(b)) ==> #[trigger] j.field(key).flag() == Some(b),
        forall|items: Seq<JsonView>|
            j.holds(key, JsonView::Array(items)) ==> #[trigger] j.field(key).items() == Some(items)
                && (items.len() > 0 ==> j.field(key).first() == items[0]) && (items.len() == 0
                ==> j.field(key).first() is Null),
        !j.has_list(key) ==> j.field(key).items() is None && j.field(key).first() is Null,
        !(j matches JsonView::Object(m) && m.dom().contains(key) && m[key] is Bool) ==> j.field(
            key,
        ).flag() is None,
        forall|n: u64|
            j.holds(key, JsonView::Number(NumberView::Unsigned(n))) ==> #[trigger] j.field(
                key,
            ).count() == Some(n),
        !j.has_count(key) ==> j.field(key).count() is None,
{
}

/// The low half of a word is its remainder by two to the power of 32.
pub proof fn lemma_low_half(n: u64)
    ensures
        n as u32 == n % 0x1_0000_0000,
{
    assert(n as u32 == n % 0x1_0000_0000) by (bit_vector);
}

/// A value is seen as what it is: an array with its items in order, an object as the members that
/// were set, of which a later one counts for an earlier one with the same key.
pub proof fn law_values_as_seen(j: Json, i: int, entries: Seq<(String, Json)>,
    entry: (String, Json))
    ensures
        match j {
            Json::Null => j@ is Null,
            Json::Bool(b) => j@ == JsonView::Bool(b),
            Json::Number(n) => j@ == JsonView::Number(number_view(n)),
            Json::Text(s) => j@ == JsonView::Text(s@),
            Json::Array(items) => j@ matches JsonView::Array(all) && all.len() == items@.len() && (0
                <= i < items@.len() ==> all[i] == items@[i]@),
            Json::Object(o) => j@ == JsonView::Object(o@) && o@ == entries_view(o.entries@),
        },
        entries_view(Seq::<(String, Json)>::empty()) == Map::<Seq<char>, JsonView>::empty(),
        entries_view(entries.push(entry)) == entries_view(entries).insert(entry.0@, entry.1@),
{
    reveal_with_fuel(entries_view, 2);
    assert(entries.push(entry).drop_last() =~= entries);
    match j {
        Json::Array(items) => {
            assert(j@ == JsonView::Array(items_view(items@)));
            assert(items_view(items@).len() == items@.len());
            if 0 <= i < items@.len() {
                assert(items_view(items@)[i] == items@[i]@);
            }
        },
        Json::Object(o) => {
            assert(j@ == JsonView::Object(entries_view(o.entries@)));
        },
        _ => {},
    }
}

/// A value in parts is the value that its parts make up; of members, one more comes in addition.
pub proof fn law_parts(
    p: ValueParts,
    i: int,
    entries: Seq<(String, serde_json::Value)>,
    entry: (String, serde_json::Value),
)
    ensures
        match p {
            ValueParts::Null => parts_json(p) is Null,
            ValueParts::Bool(b) => parts_json(p) == JsonView::Bool(b),
            ValueParts::Number(n) => parts_json(p) == JsonView::Number(number_view(n)),
            ValueParts::Text(s) => parts_json(p) == JsonView::Text(s@),
            ValueParts::Array(items) => parts_json(p) matches JsonView::Array(all) && all.len()
                == items@.len() && (0 <= i < items@.len() ==> all[i] == value_json(items@[i])),
            ValueParts::Object(members) => parts_json(p) == JsonView::Object(pairs_map(members@)),
        },
        pairs_map(Seq::<(String, serde_json::Value)>::empty()) == Map::<
            Seq<char>,
            JsonView,
        >::empty(),
        pairs_map(entries.push(entry)) == pairs_map(entries).insert(entry.0@, value_json(entry.1)),
{
    assert(entries.push(entry).drop_last() =~= entries);
}

} // verus!
