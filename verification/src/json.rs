//! JSON documents.
//!
//! `Json` is the tree that the rest of the crate reads and builds. Its view,
//! `JsonView`, is what contracts speak of: an object is a map from member
//! names to values, so neither the order of the members nor a name that is
//! written twice (the later one counts) shows in it.
//!
//! Reading text into a tree and writing a tree out as text is `serde_json`'s
//! work, and numbers are kept as `serde_json` holds them. What is believed of
//! `serde_json` stands in the few items at the head of this file; everything
//! after them is proved.

use crate::text::same_text;
use vstd::prelude::*;

verus! {

/// `serde_json::Value`, of which nothing is seen from here but what the
/// items below say.
#[verifier::external_type_specification]
#[verifier::external_body]
pub struct ExValue(serde_json::Value);

/// `serde_json::Number`: a number as `serde_json` holds it. It is carried
/// through as it is.
#[verifier::external_type_specification]
#[verifier::external_body]
pub struct ExNumber(serde_json::Number);

/// A JSON document.
#[derive(Debug)]
pub enum Json {
    Null,
    Bool(bool),
    Number(serde_json::Number),
    Str(String),
    Array(Vec<Json>),
    Object(Vec<(String, Json)>),
}

/// What a JSON document holds.
pub ghost enum JsonView {
    Null,
    Bool(bool),
    Number(serde_json::Number),
    Str(Seq<char>),
    Array(Seq<JsonView>),
    Object(Map<Seq<char>, JsonView>),
}

/// The document that `serde_json::from_str` reads from a text or, where it
/// reads none, the message of its error.
pub uninterp spec fn json_parse(text: Seq<char>) -> Result<JsonView, Seq<char>>;

/// The text that `serde_json` writes for a document.
pub uninterp spec fn json_text(j: JsonView) -> Seq<char>;

/// What a `serde_json::Value` holds.
pub uninterp spec fn value_tree(v: serde_json::Value) -> JsonView;

/// What `serde_json::Number::as_u64` gives for a number.
pub uninterp spec fn number_u64(n: serde_json::Number) -> Option<u64>;

/// The number that `serde_json` makes of an unsigned integer.
pub uninterp spec fn number_of_u64(n: u64) -> serde_json::Number;

/// The number that `serde_json` makes of a signed integer.
pub uninterp spec fn number_of_i64(n: i64) -> serde_json::Number;

/// `From<u64>` for `serde_json::Number`: the number that holds `n`. The
/// contract names the result and adds what `as_u64` gives for it: the
/// number is kept as a positive integer, which `as_u64` hands back.
pub assume_specification[ <serde_json::Number as From<u64>>::from ](n: u64) -> (r:
    serde_json::Number)
    ensures
        r == number_of_u64(n),
        number_u64(r) == Some(n),
;

/// `From<i64>` for `serde_json::Number`: the number that holds `n`. The
/// contract names the result and adds what `as_u64` gives for it: a number
/// below zero is kept as a negative integer, for which `as_u64` gives
/// nothing, and every other as a positive integer, which `as_u64` hands
/// back.
pub assume_specification[ <serde_json::Number as From<i64>>::from ](n: i64) -> (r:
    serde_json::Number)
    ensures
        r == number_of_i64(n),
        number_u64(r) == (if n >= 0 {
            Some(n as u64)
        } else {
            None
        }),
;

/// `serde_json::Number::as_u64`: the number as an unsigned integer, where it
/// is one. The contract only names the result.
pub assume_specification[ serde_json::Number::as_u64 ](n: &serde_json::Number) -> (r: Option<u64>)
    ensures
        r == number_u64(*n),
;

/// `Clone` for `serde_json::Number`: the copy is the same number.
pub assume_specification[ <serde_json::Number as Clone>::clone ](n: &serde_json::Number) -> (r:
    serde_json::Number)
    ensures
        r == *n,
;

/// `serde_json::from_str`, for a `serde_json::Value`. The contract names the
/// result: the value read holds the document that `json_parse` stands for,
/// and an error is handed on as its message.
#[verifier::external_body]
fn read_value(text: &str) -> (r: Result<serde_json::Value, String>)
    ensures
        match r {
            Ok(v) => json_parse(text@) == Ok::<JsonView, Seq<char>>(value_tree(v)),
            Err(e) => json_parse(text@) == Err::<JsonView, Seq<char>>(e@),
        },
{
    serde_json::from_str::<serde_json::Value>(text).map_err(|e| e.to_string())
}

/// `to_string` of a `serde_json::Value`. The contract names the result: the
/// text depends on what the value holds and on nothing else, as `serde_json`
/// keeps the members of an object in the order of their names. It adds that
/// the text is one line: `serde_json` writes the compact form, which has no
/// white space between values, and escapes a line feed inside a string.
#[verifier::external_body]
fn write_value(v: &serde_json::Value) -> (s: String)
    ensures
        s@ == json_text(value_tree(*v)),
        one_line(s@),
{
    v.to_string()
}

/// Turns a `serde_json::Value` into a `Json`, variant for variant. The
/// members of an object come in the order in which `serde_json` hands them
/// out, each name once.
#[verifier::external_body]
fn lift(v: serde_json::Value) -> (j: Json)
    ensures
        j@ == value_tree(v),
{
    match v {
        serde_json::Value::Null => Json::Null,
        serde_json::Value::Bool(b) => Json::Bool(b),
        serde_json::Value::Number(n) => Json::Number(n),
        serde_json::Value::String(s) => Json::Str(s),
        serde_json::Value::Array(a) => Json::Array(a.into_iter().map(lift).collect()),
        serde_json::Value::Object(m) => Json::Object(
            m.into_iter().map(|(k, x)| (k, lift(x))).collect(),
        ),
    }
}

/// Turns a `Json` into a `serde_json::Value`, variant for variant. The
/// members of an object are put into a `serde_json::Map` one after the
/// other with `insert`, which replaces the value of a name that is there
/// already.
#[verifier::external_body]
fn lower(j: &Json) -> (v: serde_json::Value)
    ensures
        value_tree(v) == j@,
{
    match j {
        Json::Null => serde_json::Value::Null,
        Json::Bool(b) => serde_json::Value::Bool(*b),
        Json::Number(n) => serde_json::Value::Number(n.clone()),
        Json::Str(s) => serde_json::Value::String(s.clone()),
        Json::Array(items) => serde_json::Value::Array(items.iter().map(lower).collect()),
        Json::Object(entries) => {
            let mut map = serde_json::Map::new();
            for (k, x) in entries.iter() {
                map.insert(k.clone(), lower(x));
            }
            serde_json::Value::Object(map)
        },
    }
}

/// Whether a text holds no line feed.
pub open spec fn one_line(s: Seq<char>) -> bool {
    forall|i: int| 0 <= i < s.len() ==> s[i] != '\n'
}

/// The map that a list of members stands for: of two members with one name
/// the later counts.
pub open spec fn members(entries: Seq<(Seq<char>, JsonView)>) -> Map<Seq<char>, JsonView>
    decreases entries.len(),
{
    if entries.len() == 0 {
        Map::empty()
    } else {
        members(entries.drop_last()).insert(entries.last().0, entries.last().1)
    }
}

/// The object with the given members.
pub open spec fn object(entries: Seq<(Seq<char>, JsonView)>) -> JsonView {
    JsonView::Object(members(entries))
}

/// The number `n`.
pub open spec fn count(n: u64) -> JsonView {
    JsonView::Number(number_of_u64(n))
}

/// The number `n`.
pub open spec fn signed(n: i64) -> JsonView {
    JsonView::Number(number_of_i64(n))
}

/// The number that `serde_json` reads from a numeral; null where it reads
/// none.
pub open spec fn number(numeral: Seq<char>) -> JsonView {
    match json_parse(numeral) {
        Ok(JsonView::Number(n)) => JsonView::Number(n),
        _ => JsonView::Null,
    }
}

impl View for Json {
    type V = JsonView;

    open spec fn view(&self) -> JsonView
        decreases self,
    {
        match self {
            Json::Null => JsonView::Null,
            Json::Bool(b) => JsonView::Bool(*b),
            Json::Number(n) => JsonView::Number(*n),
            Json::Str(s) => JsonView::Str(s@),
            Json::Array(items) => JsonView::Array(items_view(items@)),
            Json::Object(entries) => JsonView::Object(members(entries_view(entries@))),
        }
    }
}

/// The views of the items of an array.
pub open spec fn items_view(items: Seq<Json>) -> Seq<JsonView>
    decreases items,
{
    Seq::new(
        items.len(),
        |i: int|
            if 0 <= i < items.len() {
                items[i].view()
            } else {
                JsonView::Null
            },
    )
}

/// The views of the members of an object.
pub open spec fn entries_view(entries: Seq<(String, Json)>) -> Seq<(Seq<char>, JsonView)>
    decreases entries,
{
    Seq::new(
        entries.len(),
        |i: int|
            if 0 <= i < entries.len() {
                (entries[i].0@, entries[i].1.view())
            } else {
                (Seq::empty(), JsonView::Null)
            },
    )
}

/// A name that some member bears is in the map, with the value of the last
/// member that bears it.
pub proof fn lemma_members_last(entries: Seq<(Seq<char>, JsonView)>, key: Seq<char>, i: int)
    requires
        0 <= i < entries.len(),
        entries[i].0 == key,
        forall|k: int| i < k < entries.len() ==> (#[trigger] entries[k]).0 != key,
    ensures
        members(entries).contains_key(key),
        members(entries)[key] == entries[i].1,
    decreases entries.len(),
{
    if i < entries.len() - 1 {
        lemma_members_last(entries.drop_last(), key, i);
    }
}

/// A name that no member bears is not in the map.
pub proof fn lemma_members_absent(entries: Seq<(Seq<char>, JsonView)>, key: Seq<char>)
    requires
        forall|k: int| 0 <= k < entries.len() ==> (#[trigger] entries[k]).0 != key,
    ensures
        !members(entries).contains_key(key),
    decreases entries.len(),
{
    if entries.len() > 0 {
        lemma_members_absent(entries.drop_last(), key);
    }
}

impl JsonView {
    /// The value of the member `key`, where this is an object that has one.
    pub open spec fn member(self, key: Seq<char>) -> Option<JsonView> {
        match self {
            JsonView::Object(m) => if m.contains_key(key) {
                Some(m[key])
            } else {
                None
            },
            _ => None,
        }
    }

    /// The text, where this is a string.
    pub open spec fn as_text(self) -> Option<Seq<char>> {
        match self {
            JsonView::Str(s) => Some(s),
            _ => None,
        }
    }

    /// The truth value, where this is one.
    pub open spec fn as_flag(self) -> Option<bool> {
        match self {
            JsonView::Bool(b) => Some(b),
            _ => None,
        }
    }

    /// The unsigned integer, where this is a number that `serde_json` takes
    /// for one.
    pub open spec fn as_count(self) -> Option<u64> {
        match self {
            JsonView::Number(n) => number_u64(n),
            _ => None,
        }
    }

    /// The text of the member `key`, where there is such a member and it is a
    /// string.
    pub open spec fn text_member(self, key: Seq<char>) -> Option<Seq<char>> {
        match self.member(key) {
            Some(v) => v.as_text(),
            None => None,
        }
    }

    /// The truth value of the member `key`.
    pub open spec fn flag_member(self, key: Seq<char>) -> Option<bool> {
        match self.member(key) {
            Some(v) => v.as_flag(),
            None => None,
        }
    }

    /// The unsigned integer of the member `key`.
    pub open spec fn count_member(self, key: Seq<char>) -> Option<u64> {
        match self.member(key) {
            Some(v) => v.as_count(),
            None => None,
        }
    }
}

impl Json {
    /// Reads a document from text.
    pub fn parse(text: &str) -> (r: Result<Json, String>)
        ensures
            match r {
                Ok(j) => json_parse(text@) == Ok::<JsonView, Seq<char>>(j@),
                Err(e) => json_parse(text@) == Err::<JsonView, Seq<char>>(e@),
            },
    {
        match read_value(text) {
            Ok(v) => Ok(lift(v)),
            Err(e) => Err(e),
        }
    }

    /// Writes the document out as text, on one line.
    pub fn render(&self) -> (s: String)
        ensures
            s@ == json_text(self@),
            one_line(s@),
    {
        let v = lower(self);
        write_value(&v)
    }

    /// The string that holds `s`.
    pub fn text(s: &str) -> (j: Json)
        ensures
            j@ == JsonView::Str(s@),
    {
        Json::Str(s.to_owned())
    }

    /// The number that a numeral stands for; null where the text is none.
    pub fn numeral(text: &str) -> (j: Json)
        ensures
            j@ == number(text@),
    {
        match Json::parse(text) {
            Ok(Json::Number(n)) => Json::Number(n),
            _ => Json::Null,
        }
    }

    /// The number `n`, which reads as `n` again.
    pub fn from_u64(n: u64) -> (j: Json)
        ensures
            j@ == count(n),
            j@.as_count() == Some(n),
    {
        Json::Number(serde_json::Number::from(n))
    }

    /// The number `n`, which reads as an unsigned integer where it is not
    /// below zero.
    pub fn from_i64(n: i64) -> (j: Json)
        ensures
            j@ == signed(n),
            j@.as_count() == (if n >= 0 {
                Some(n as u64)
            } else {
                None
            }),
    {
        Json::Number(serde_json::Number::from(n))
    }

    /// The value of the member `key`, where this is an object that has one.
    pub fn get(&self, key: &str) -> (r: Option<&Json>)
        ensures
            match r {
                Some(j) => self@.member(key@) == Some(j@),
                None => self@.member(key@) is None,
            },
    {
        match self {
            Json::Object(entries) => {
                let ghost ev = entries_view(entries@);
                let mut i: usize = entries.len();
                while i > 0
                    invariant
                        i <= entries.len(),
                        ev == entries_view(entries@),
                        self@ == object(ev),
                        forall|k: int| i <= k < ev.len() ==> (#[trigger] ev[k]).0 != key@,
                    decreases i,
                {
                    i -= 1;
                    if same_text(entries[i].0.as_str(), key) {
                        proof {
                            lemma_members_last(ev, key@, i as int);
                        }
                        return Some(&entries[i].1);
                    }
                }
                proof {
                    lemma_members_absent(ev, key@);
                }
                None
            },
            _ => None,
        }
    }

    /// The text, where this is a string.
    pub fn as_str(&self) -> (r: Option<&str>)
        ensures
            match r {
                Some(s) => self@.as_text() == Some(s@),
                None => self@.as_text() is None,
            },
    {
        match self {
            Json::Str(s) => Some(s.as_str()),
            _ => None,
        }
    }

    /// The truth value, where this is one.
    pub fn as_bool(&self) -> (r: Option<bool>)
        ensures
            r == self@.as_flag(),
    {
        match self {
            Json::Bool(b) => Some(*b),
            _ => None,
        }
    }

    /// The unsigned integer, where this is a number that `serde_json` takes
    /// for one.
    pub fn as_u64(&self) -> (r: Option<u64>)
        ensures
            r == self@.as_count(),
    {
        match self {
            Json::Number(n) => n.as_u64(),
            _ => None,
        }
    }

    /// The text of the member `key`, where there is such a member and it is a
    /// string.
    pub fn get_str(&self, key: &str) -> (r: Option<&str>)
        ensures
            match r {
                Some(s) => self@.text_member(key@) == Some(s@),
                None => self@.text_member(key@) is None,
            },
    {
        match self.get(key) {
            Some(v) => v.as_str(),
            None => None,
        }
    }

    /// The truth value of the member `key`.
    pub fn get_bool(&self, key: &str) -> (r: Option<bool>)
        ensures
            r == self@.flag_member(key@),
    {
        match self.get(key) {
            Some(v) => v.as_bool(),
            None => None,
        }
    }

    /// The unsigned integer of the member `key`.
    pub fn get_u64(&self, key: &str) -> (r: Option<u64>)
        ensures
            r == self@.count_member(key@),
    {
        match self.get(key) {
            Some(v) => v.as_u64(),
            None => None,
        }
    }

    /// A copy of the document.
    pub fn duplicate(&self) -> (r: Json)
        ensures
            r@ == self@,
        decreases self,
    {
        match self {
            Json::Null => Json::Null,
            Json::Bool(b) => Json::Bool(*b),
            Json::Number(n) => Json::Number(n.clone()),
            Json::Str(s) => Json::Str(s.clone()),
            Json::Array(items) => {
                let mut out: Vec<Json> = Vec::new();
                let mut i: usize = 0;
                while i < items.len()
                    invariant
                        i <= items.len(),
                        *self == Json::Array(*items),
                        out.len() == i,
                        forall|k: int| 0 <= k < i ==> (#[trigger] out@[k])@ == items@[k]@,
                    decreases items.len() - i,
                {
                    assert(decreases_to!(self => self->Array_0));
                    assert(decreases_to!(self->Array_0 => self->Array_0[i as int]));
                    out.push(items[i].duplicate());
                    i += 1;
                }
                assert(items_view(out@) =~= items_view(items@));
                Json::Array(out)
            },
            Json::Object(entries) => {
                let mut out: Vec<(String, Json)> = Vec::new();
                let mut i: usize = 0;
                while i < entries.len()
                    invariant
                        i <= entries.len(),
                        *self == Json::Object(*entries),
                        out.len() == i,
                        forall|k: int|
                            0 <= k < i ==> (#[trigger] out@[k]).0@ == entries@[k].0@ && out@[k].1@
                                == entries@[k].1@,
                    decreases entries.len() - i,
                {
                    assert(decreases_to!(self => self->Object_0));
                    assert(decreases_to!(self->Object_0 => self->Object_0[i as int]));
                    assert(decreases_to!(self->Object_0[i as int] => self->Object_0[i as int].1));
                    out.push((entries[i].0.clone(), entries[i].1.duplicate()));
                    i += 1;
                }
                assert(entries_view(out@) =~= entries_view(entries@));
                Json::Object(out)
            },
        }
    }
}

/// The members of an object, gathered one by one.
#[derive(Debug)]
pub struct Members {
    pub entries: Vec<(String, Json)>,
}

impl View for Members {
    type V = Seq<(Seq<char>, JsonView)>;

    open spec fn view(&self) -> Seq<(Seq<char>, JsonView)> {
        entries_view(self.entries@)
    }
}

impl Members {
    /// No members yet.
    pub fn new() -> (m: Members)
        ensures
            m@ == Seq::<(Seq<char>, JsonView)>::empty(),
    {
        Members { entries: Vec::new() }
    }

    /// Adds the member `key` with the value `value`.
    pub fn put(&mut self, key: &str, value: Json)
        ensures
            final(self)@ == old(self)@.push((key@, value@)),
    {
        self.entries.push((key.to_owned(), value));
        assert(self@ =~= old(self)@.push((key@, value@)));
    }

    /// The object that has the members gathered.
    pub fn finish(self) -> (j: Json)
        ensures
            j@ == object(self@),
    {
        Json::Object(self.entries)
    }
}

/// The items of an array, gathered one by one.
#[derive(Debug)]
pub struct Items {
    pub items: Vec<Json>,
}

impl View for Items {
    type V = Seq<JsonView>;

    open spec fn view(&self) -> Seq<JsonView> {
        items_view(self.items@)
    }
}

impl Items {
    /// No items yet.
    pub fn new() -> (m: Items)
        ensures
            m@ == Seq::<JsonView>::empty(),
    {
        Items { items: Vec::new() }
    }

    /// Adds `value` as the last item.
    pub fn put(&mut self, value: Json)
        ensures
            final(self)@ == old(self)@.push(value@),
    {
        self.items.push(value);
        assert(self@ =~= old(self)@.push(value@));
    }

    /// The array that has the items gathered.
    pub fn finish(self) -> (j: Json)
        ensures
            j@ == JsonView::Array(self@),
    {
        Json::Array(self.items)
    }
}

} // verus!
