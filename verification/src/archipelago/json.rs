//! JSON values as the protocol sees them, and their passage through `serde_json`.

use vstd::prelude::*;

verus! {

/// A JSON value held as plain data.
///
/// Integers keep the split `serde_json` makes: `PosInt` for what is not
/// negative, `NegInt` for what is. Any other number is kept by its decimal
/// text in `Real`. An object is the list of its entries in the order in which
/// `serde_json` walks them.
#[derive(Debug)]
pub enum Json {
    Null,
    Bool(bool),
    PosInt(u64),
    NegInt(i64),
    Real(String),
    Str(String),
    Arr(Vec<Json>),
    Obj(Vec<Member>),
}

/// One entry of an object.
#[derive(Debug)]
pub struct Member {
    pub name: String,
    pub value: Json,
}

/// The mathematical value of a [`Json`].
pub enum JsonView {
    Null,
    Bool(bool),
    Int(int),
    Real(Seq<char>),
    Str(Seq<char>),
    Arr(Seq<JsonView>),
    Obj(Seq<(Seq<char>, JsonView)>),
}

/// The mathematical value of `j`.
pub open spec fn spec_json_view(j: Json) -> JsonView
    decreases j,
{
    match j {
        Json::Null => JsonView::Null,
        Json::Bool(b) => JsonView::Bool(b),
        Json::PosInt(u) => JsonView::Int(u as int),
        Json::NegInt(i) => JsonView::Int(i as int),
        Json::Real(t) => JsonView::Real(t@),
        Json::Str(s) => JsonView::Str(s@),
        Json::Arr(items) => JsonView::Arr(
            Seq::new(
                items.len() as nat,
                |i: int|
                    if 0 <= i < items.len() {
                        spec_json_view(items[i])
                    } else {
                        JsonView::Null
                    },
            ),
        ),
        Json::Obj(entries) => JsonView::Obj(
            Seq::new(
                entries.len() as nat,
                |i: int|
                    if 0 <= i < entries.len() {
                        (entries[i].name@, spec_json_view(entries[i].value))
                    } else {
                        (Seq::<char>::empty(), JsonView::Null)
                    },
            ),
        ),
    }
}

impl View for Json {
    type V = JsonView;

    open spec fn view(&self) -> JsonView {
        spec_json_view(*self)
    }
}

/// The view of an optional value.
pub open spec fn option_view(j: Option<Json>) -> Option<JsonView> {
    match j {
        Some(v) => Some(v@),
        None => None,
    }
}

/// The value that `serde_json` reads from a text, `None` where the text is
/// not exactly one JSON value.
pub uninterp spec fn json_text_value(text: Seq<char>) -> Option<JsonView>;

/// The compact text that `serde_json` prints for a value.
pub uninterp spec fn json_value_text(value: JsonView) -> Seq<char>;

/// `serde_json::Value`. Nothing is known of a value of it here; it only
/// passes between `serde_json` and the two functions below.
#[verifier::external_type_specification]
#[verifier::external_body]
pub struct ExValue(serde_json::Value);

/// Moves a `serde_json::Value` into a [`Json`], variant by variant. A number
/// that `as_u64` knows becomes `PosInt`, one that only `as_i64` knows becomes
/// `NegInt`, and any other is kept by the text that `serde_json` prints for it.
#[verifier::external_body]
fn json_of_value(v: serde_json::Value) -> Json {
    match v {
        serde_json::Value::Null => Json::Null,
        serde_json::Value::Bool(b) => Json::Bool(b),
        serde_json::Value::Number(n) => match (n.as_u64(), n.as_i64()) {
            (Some(u), _) => Json::PosInt(u),
            (None, Some(i)) => Json::NegInt(i),
            (None, None) => Json::Real(n.to_string()),
        },
        serde_json::Value::String(s) => Json::Str(s),
        serde_json::Value::Array(a) => Json::Arr(a.into_iter().map(json_of_value).collect()),
        serde_json::Value::Object(o) => Json::Obj(
            o.into_iter().map(|(k, v)| Member { name: k, value: json_of_value(v) }).collect(),
        ),
    }
}

/// Builds the `serde_json::Value` that a [`Json`] stands for, variant by
/// variant. The text of a `Real` is read back as a number; where it is none,
/// the value is `null`, which is how `serde_json` prints a number that JSON
/// cannot hold.
#[verifier::external_body]
fn value_of_json(j: &Json) -> serde_json::Value {
    match j {
        Json::Null => serde_json::Value::Null,
        Json::Bool(b) => serde_json::Value::Bool(*b),
        Json::PosInt(u) => serde_json::Value::from(*u),
        Json::NegInt(i) => serde_json::Value::from(*i),
        Json::Real(t) => t.parse::<serde_json::Number>().map_or(
            serde_json::Value::Null,
            serde_json::Value::Number,
        ),
        Json::Str(s) => serde_json::Value::String(s.clone()),
        Json::Arr(a) => serde_json::Value::Array(a.iter().map(value_of_json).collect()),
        Json::Obj(o) => serde_json::Value::Object(
            o.iter().map(|m| (m.name.clone(), value_of_json(&m.value))).collect(),
        ),
    }
}

/// `serde_json::from_str` on a `serde_json::Value`: reads one JSON value from
/// the whole text. The contract claims only that the outcome is a function of
/// the text.
#[verifier::external_body]
pub(crate) fn parse_json(text: &str) -> (r: Option<Json>)
    ensures
        option_view(r) == json_text_value(text@),
{
    match serde_json::from_str::<serde_json::Value>(text) {
        Ok(v) => Some(json_of_value(v)),
        Err(_) => None,
    }
}

/// `to_string` of a `serde_json::Value`, which prints it in compact form. The
/// contract claims only that the text is a function of the value.
#[verifier::external_body]
pub(crate) fn print_json(j: &Json) -> (text: String)
    ensures
        text@ == json_value_text(j@),
{
    value_of_json(j).to_string()
}

/// Whether two string slices hold the same text.
pub fn str_same(a: &str, b: &str) -> (same: bool)
    ensures
        same == (a@ == b@),
{
    let x: String = a.to_owned();
    let y: String = b.to_owned();
    x == y
}

/// The value of the last entry named `name`, as `serde_json` keeps the last
/// of several entries with one name.
pub open spec fn spec_lookup(entries: Seq<(Seq<char>, JsonView)>, name: Seq<char>) -> Option<
    JsonView,
>
    decreases entries.len(),
{
    if entries.len() == 0 {
        None
    } else if entries.last().0 == name {
        Some(entries.last().1)
    } else {
        spec_lookup(entries.drop_last(), name)
    }
}

impl JsonView {
    /// The field `name` of an object; `None` for anything else.
    pub open spec fn field(self, name: Seq<char>) -> Option<JsonView> {
        match self {
            JsonView::Obj(entries) => spec_lookup(entries, name),
            _ => None,
        }
    }

    pub open spec fn as_str(self) -> Option<Seq<char>> {
        match self {
            JsonView::Str(s) => Some(s),
            _ => None,
        }
    }

    pub open spec fn as_bool(self) -> Option<bool> {
        match self {
            JsonView::Bool(b) => Some(b),
            _ => None,
        }
    }

    pub open spec fn as_int(self) -> Option<int> {
        match self {
            JsonView::Int(i) => Some(i),
            _ => None,
        }
    }

    /// The integer, where it lies in `lo ..= hi`.
    pub open spec fn as_int_in(self, lo: int, hi: int) -> Option<int> {
        match self {
            JsonView::Int(i) => if lo <= i <= hi {
                Some(i)
            } else {
                None
            },
            _ => None,
        }
    }

    pub open spec fn is_number(self) -> bool {
        self is Int || self is Real
    }

    pub open spec fn as_arr(self) -> Option<Seq<JsonView>> {
        match self {
            JsonView::Arr(items) => Some(items),
            _ => None,
        }
    }

    pub open spec fn as_obj(self) -> Option<Seq<(Seq<char>, JsonView)>> {
        match self {
            JsonView::Obj(entries) => Some(entries),
            _ => None,
        }
    }

    /// The texts of an array of strings.
    pub open spec fn as_str_list(self) -> Option<Seq<Seq<char>>> {
        match self {
            JsonView::Arr(items) => if forall|i: int| 0 <= i < items.len() ==> items[i] is Str {
                Some(Seq::new(items.len(), |i: int| items[i]->Str_0))
            } else {
                None
            },
            _ => None,
        }
    }

    /// The numbers of an array of integers that all lie in `lo ..= hi`.
    pub open spec fn as_int_list(self, lo: int, hi: int) -> Option<Seq<int>> {
        match self {
            JsonView::Arr(items) => if forall|i: int|
                0 <= i < items.len() ==> (#[trigger] items[i]).as_int_in(lo, hi) is Some {
                Some(Seq::new(items.len(), |i: int| items[i]->Int_0))
            } else {
                None
            },
            _ => None,
        }
    }
}

impl Json {
    /// Reads one JSON value from a text that holds nothing else.
    pub fn from_text(text: &str) -> (r: Option<Json>)
        ensures
            option_view(r) == json_text_value(text@),
    {
        parse_json(text)
    }

    /// The compact text of this value.
    pub fn to_text(&self) -> (text: String)
        ensures
            text@ == json_value_text(self@),
    {
        print_json(self)
    }

    /// The field `name` of an object.
    pub fn field(&self, name: &str) -> (r: Option<&Json>)
        ensures
            match r {
                Some(v) => self@.field(name@) == Some(v@),
                None => self@.field(name@) is None,
            },
    {
        match self {
            Json::Obj(entries) => {
                let ghost all = self@->Obj_0;
                let mut i: usize = entries.len();
                assert(all.take(i as int) == all);
                while i > 0
                    invariant
                        i <= entries.len(),
                        self@ == JsonView::Obj(all),
                        all.len() == entries.len(),
                        forall|k: int|
                            0 <= k < entries.len() ==> all[k] == (
                                #[trigger] entries[k].name@,
                                entries[k].value@,
                            ),
                        spec_lookup(all, name@) == spec_lookup(all.take(i as int), name@),
                    decreases i,
                {
                    i -= 1;
                    assert(all.take(i + 1).drop_last() == all.take(i as int));
                    if str_same(entries[i].name.as_str(), name) {
                        return Some(&entries[i].value);
                    }
                }
                None
            },
            _ => None,
        }
    }

    pub fn as_str(&self) -> (r: Option<&String>)
        ensures
            match r {
                Some(s) => self@.as_str() == Some(s@),
                None => self@.as_str() is None,
            },
    {
        match self {
            Json::Str(s) => Some(s),
            _ => None,
        }
    }

    pub fn as_bool(&self) -> (r: Option<bool>)
        ensures
            r == self@.as_bool(),
    {
        match self {
            Json::Bool(b) => Some(*b),
            _ => None,
        }
    }

    pub fn is_number(&self) -> (r: bool)
        ensures
            r == self@.is_number(),
    {
        match self {
            Json::PosInt(_) => true,
            Json::NegInt(_) => true,
            Json::Real(_) => true,
            _ => false,
        }
    }

    /// The integer, where an `isize` holds it.
    pub fn as_isize(&self) -> (r: Option<isize>)
        ensures
            match r {
                Some(i) => self@.as_int_in(isize::MIN as int, isize::MAX as int) == Some(i as int),
                None => self@.as_int_in(isize::MIN as int, isize::MAX as int) is None,
            },
    {
        match self {
            Json::PosInt(u) => if *u <= isize::MAX as u64 {
                Some(*u as isize)
            } else {
                None
            },
            Json::NegInt(i) => if isize::MIN as i64 <= *i && *i <= isize::MAX as i64 {
                Some(*i as isize)
            } else {
                None
            },
            _ => None,
        }
    }

    /// The integer, where a `usize` holds it.
    pub fn as_usize(&self) -> (r: Option<usize>)
        ensures
            match r {
                Some(i) => self@.as_int_in(0, usize::MAX as int) == Some(i as int),
                None => self@.as_int_in(0, usize::MAX as int) is None,
            },
    {
        match self {
            Json::PosInt(u) => if *u <= usize::MAX as u64 {
                Some(*u as usize)
            } else {
                None
            },
            Json::NegInt(i) => if 0 <= *i && *i as u64 <= usize::MAX as u64 {
                Some(*i as usize)
            } else {
                None
            },
            _ => None,
        }
    }

    /// The integer, where a `u8` holds it.
    pub fn as_u8(&self) -> (r: Option<u8>)
        ensures
            match r {
                Some(i) => self@.as_int_in(0, 255) == Some(i as int),
                None => self@.as_int_in(0, 255) is None,
            },
    {
        match self {
            Json::PosInt(u) => if *u <= 255 {
                Some(*u as u8)
            } else {
                None
            },
            Json::NegInt(i) => if 0 <= *i && *i <= 255 {
                Some(*i as u8)
            } else {
                None
            },
            _ => None,
        }
    }

    pub fn as_arr(&self) -> (r: Option<&Vec<Json>>)
        ensures
            match r {
                Some(items) => self@.as_arr() == Some(spec_views(items@)),
                None => self@.as_arr() is None,
            },
    {
        match self {
            Json::Arr(items) => {
                Some(items)
            },
            _ => None,
        }
    }

    pub fn as_obj(&self) -> (r: Option<&Vec<Member>>)
        ensures
            match r {
                Some(entries) => self@.as_obj() == Some(spec_entry_views(entries@)),
                None => self@.as_obj() is None,
            },
    {
        match self {
            Json::Obj(entries) => {
                Some(entries)
            },
            _ => None,
        }
    }

    /// The texts of an array of strings.
    pub fn as_str_list(&self) -> (r: Option<Vec<String>>)
        ensures
            match r {
                Some(v) => self@.as_str_list() == Some(v.deep_view()),
                None => self@.as_str_list() is None,
            },
    {
        match self {
            Json::Arr(items) => {
                let ghost all = self@->Arr_0;
                let mut out: Vec<String> = Vec::new();
                let mut i: usize = 0;
                while i < items.len()
                    invariant
                        i <= items.len(),
                        self@ == JsonView::Arr(all),
                        all == spec_views(items@),
                        out.len() == i,
                        forall|k: int| 0 <= k < i ==> #[trigger] all[k] == JsonView::Str(out[k]@),
                    decreases items.len() - i,
                {
                    match &items[i] {
                        Json::Str(s) => {
                            out.push(s.clone());
                        },
                        _ => {
                            assert(!(all[i as int] is Str));
                            return None;
                        },
                    }
                    i += 1;
                }
                Some(out)
            },
            _ => None,
        }
    }

    /// The numbers of an array of integers that an `isize` holds.
    pub fn as_isize_list(&self) -> (r: Option<Vec<isize>>)
        ensures
            match r {
                Some(v) => self@.as_int_list(isize::MIN as int, isize::MAX as int) == Some(
                    v@.map_values(|x: isize| x as int),
                ),
                None => self@.as_int_list(isize::MIN as int, isize::MAX as int) is None,
            },
    {
        match self {
            Json::Arr(items) => {
                let ghost all = self@->Arr_0;
                let mut out: Vec<isize> = Vec::new();
                let mut i: usize = 0;
                while i < items.len()
                    invariant
                        i <= items.len(),
                        self@ == JsonView::Arr(all),
                        all == spec_views(items@),
                        out.len() == i,
                        forall|k: int|
                            0 <= k < i ==> (#[trigger] all[k]).as_int_in(
                                isize::MIN as int,
                                isize::MAX as int,
                            ) == Some(out[k] as int),
                    decreases items.len() - i,
                {
                    match items[i].as_isize() {
                        Some(x) => {
                            out.push(x);
                        },
                        None => {
                            assert(all[i as int].as_int_in(isize::MIN as int, isize::MAX as int)
                                is None);
                            return None;
                        },
                    }
                    i += 1;
                }
                Some(out)
            },
            _ => None,
        }
    }
}

/// The views of a list of values.
pub open spec fn spec_views(items: Seq<Json>) -> Seq<JsonView> {
    Seq::new(items.len(), |i: int| items[i]@)
}

/// The views of a list of entries.
pub open spec fn spec_entry_views(entries: Seq<Member>) -> Seq<(Seq<char>, JsonView)> {
    Seq::new(entries.len(), |i: int| (entries[i].name@, entries[i].value@))
}

} // verus!
