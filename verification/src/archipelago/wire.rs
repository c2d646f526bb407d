//! Reading typed values out of JSON.

use vstd::prelude::*;
use super::json::{spec_entry_views, spec_views, Json, JsonView};

verus! {

/// A type whose values JSON carries.
pub trait Wire: Sized {
    /// The mathematical value of a value of this type.
    type Model;

    spec fn model(&self) -> Self::Model;

    /// The value that `j` carries, `None` where it carries none of this type.
    spec fn spec_read(j: JsonView) -> Option<Self::Model>;

    fn read(j: &Json) -> (r: Option<Self>)
        ensures
            match r {
                Some(x) => Self::spec_read(j@) == Some(x.model()),
                None => Self::spec_read(j@) is None,
            },
    ;
}

impl Wire for isize {
    type Model = isize;

    open spec fn model(&self) -> isize {
        *self
    }

    open spec fn spec_read(j: JsonView) -> Option<isize> {
        match j.as_int_in(isize::MIN as int, isize::MAX as int) {
            Some(i) => Some(i as isize),
            None => None,
        }
    }

    fn read(j: &Json) -> (r: Option<isize>) {
        j.as_isize()
    }
}

impl Wire for String {
    type Model = Seq<char>;

    open spec fn model(&self) -> Seq<char> {
        self@
    }

    open spec fn spec_read(j: JsonView) -> Option<Seq<char>> {
        j.as_str()
    }

    fn read(j: &Json) -> (r: Option<String>) {
        match j.as_str() {
            Some(s) => Some(s.clone()),
            None => None,
        }
    }
}

/// The models of a list of values.
pub open spec fn spec_models<T: Wire>(values: Seq<T>) -> Seq<T::Model> {
    Seq::new(values.len(), |i: int| values[i].model())
}

impl<T: Wire> Wire for Vec<T> {
    type Model = Seq<T::Model>;

    open spec fn model(&self) -> Seq<T::Model> {
        spec_models(self@)
    }

    /// An array whose every item carries a `T`.
    open spec fn spec_read(j: JsonView) -> Option<Seq<T::Model>> {
        match j {
            JsonView::Arr(items) => if forall|i: int|
                0 <= i < items.len() ==> T::spec_read(#[trigger] items[i]) is Some {
                Some(Seq::new(items.len(), |i: int| T::spec_read(items[i])->0))
            } else {
                None
            },
            _ => None,
        }
    }

    fn read(j: &Json) -> (r: Option<Vec<T>>) {
        match j.as_arr() {
            None => None,
            Some(items) => {
                let ghost all = j@->Arr_0;
                let mut out: Vec<T> = Vec::new();
                let mut i: usize = 0;
                while i < items.len()
                    invariant
                        i <= items.len(),
                        j@ == JsonView::Arr(all),
                        all == spec_views(items@),
                        out.len() == i,
                        forall|k: int|
                            0 <= k < i ==> T::spec_read(#[trigger] all[k]) == Some(out[k].model()),
                    decreases items.len() - i,
                {
                    match T::read(&items[i]) {
                        Some(x) => {
                            out.push(x);
                        },
                        None => {
                            assert(T::spec_read(all[i as int]) is None);
                            return None;
                        },
                    }
                    i += 1;
                }
                Some(out)
            },
        }
    }
}

/// The value of type `T` that the field `name` of `j` carries.
pub open spec fn spec_field<T: Wire>(j: JsonView, name: Seq<char>) -> Option<T::Model> {
    match j.field(name) {
        Some(v) => T::spec_read(v),
        None => None,
    }
}

/// Reads the field `name` of `j` as a `T`.
pub fn read_field<T: Wire>(j: &Json, name: &str) -> (r: Option<T>)
    ensures
        match r {
            Some(x) => spec_field::<T>(j@, name@) == Some(x.model()),
            None => spec_field::<T>(j@, name@) is None,
        },
{
    match j.field(name) {
        Some(v) => T::read(v),
        None => None,
    }
}

impl Wire for usize {
    type Model = usize;

    open spec fn model(&self) -> usize {
        *self
    }

    open spec fn spec_read(j: JsonView) -> Option<usize> {
        match j.as_int_in(0, usize::MAX as int) {
            Some(i) => Some(i as usize),
            None => None,
        }
    }

    fn read(j: &Json) -> (r: Option<usize>) {
        j.as_usize()
    }
}

impl Wire for u8 {
    type Model = u8;

    open spec fn model(&self) -> u8 {
        *self
    }

    open spec fn spec_read(j: JsonView) -> Option<u8> {
        match j.as_int_in(0, 255) {
            Some(i) => Some(i as u8),
            None => None,
        }
    }

    fn read(j: &Json) -> (r: Option<u8>) {
        j.as_u8()
    }
}

impl Wire for bool {
    type Model = bool;

    open spec fn model(&self) -> bool {
        *self
    }

    open spec fn spec_read(j: JsonView) -> Option<bool> {
        j.as_bool()
    }

    fn read(j: &Json) -> (r: Option<bool>) {
        j.as_bool()
    }
}

/// A value that may be `null`.
impl<T: Wire> Wire for Option<T> {
    type Model = Option<T::Model>;

    open spec fn model(&self) -> Option<T::Model> {
        match self {
            Some(x) => Some(x.model()),
            None => None,
        }
    }

    open spec fn spec_read(j: JsonView) -> Option<Option<T::Model>> {
        if j is Null {
            Some(None)
        } else {
            match T::spec_read(j) {
                Some(x) => Some(Some(x)),
                None => None,
            }
        }
    }

    fn read(j: &Json) -> (r: Option<Option<T>>) {
        match j {
            Json::Null => Some(None),
            _ => match T::read(j) {
                Some(x) => Some(Some(x)),
                None => None,
            },
        }
    }
}

/// The value of type `T` that the field `name` of `j` carries, where the
/// field may be missing or `null`. The outer `None` says that the field
/// is there and carries no `T`.
pub open spec fn spec_optional<T: Wire>(j: JsonView, name: Seq<char>) -> Option<Option<T::Model>> {
    match j.field(name) {
        Some(v) => Option::<T>::spec_read(v),
        None => Some(None),
    }
}

/// Reads the field `name` of `j` as a `T`, where the field may be missing
/// or `null`.
pub fn read_optional<T: Wire>(j: &Json, name: &str) -> (r: Option<Option<T>>)
    ensures
        match r {
            Some(x) => spec_optional::<T>(j@, name@) == Some(x.model()),
            None => spec_optional::<T>(j@, name@) is None,
        },
{
    match j.field(name) {
        Some(v) => Option::<T>::read(v),
        None => Some(None),
    }
}

/// The models of the entries of a table.
pub open spec fn spec_entry_models<T: Wire>(entries: Seq<(String, T)>) -> Seq<
    (Seq<char>, T::Model),
> {
    Seq::new(entries.len(), |i: int| (entries[i].0@, entries[i].1.model()))
}

/// The table that an object carries whose every value is a `T`: its
/// entries in their order.
pub open spec fn spec_table<T: Wire>(j: JsonView) -> Option<Seq<(Seq<char>, T::Model)>> {
    match j {
        JsonView::Obj(entries) => if forall|i: int|
            0 <= i < entries.len() ==> T::spec_read((#[trigger] entries[i]).1) is Some {
            Some(Seq::new(entries.len(), |i: int| (entries[i].0, T::spec_read(entries[i].1)->0)))
        } else {
            None
        },
        _ => None,
    }
}

/// Reads an object whose every value is a `T`.
pub fn read_table<T: Wire>(j: &Json) -> (r: Option<Vec<(String, T)>>)
    ensures
        match r {
            Some(t) => spec_table::<T>(j@) == Some(spec_entry_models(t@)),
            None => spec_table::<T>(j@) is None,
        },
{
    match j.as_obj() {
        None => None,
        Some(entries) => {
            let ghost all = j@->Obj_0;
            let mut out: Vec<(String, T)> = Vec::new();
            let mut i: usize = 0;
            while i < entries.len()
                invariant
                    i <= entries.len(),
                    j@ == JsonView::Obj(all),
                    all == spec_entry_views(entries@),
                    out.len() == i,
                    forall|k: int|
                        0 <= k < i ==> T::spec_read((#[trigger] all[k]).1) == Some(
                            out[k].1.model(),
                        ) && out[k].0@ == all[k].0,
                decreases entries.len() - i,
            {
                match T::read(&entries[i].value) {
                    Some(x) => {
                        out.push((entries[i].name.clone(), x));
                    },
                    None => {
                        assert(T::spec_read(all[i as int].1) is None);
                        return None;
                    },
                }
                i += 1;
            }
            Some(out)
        },
    }
}

/// The table that the field `name` of `j` carries.
pub open spec fn spec_table_field<T: Wire>(j: JsonView, name: Seq<char>) -> Option<
    Seq<(Seq<char>, T::Model)>,
> {
    match j.field(name) {
        Some(v) => spec_table::<T>(v),
        None => None,
    }
}

/// Reads the field `name` of `j` as a table.
pub fn read_table_field<T: Wire>(j: &Json, name: &str) -> (r: Option<Vec<(String, T)>>)
    ensures
        match r {
            Some(t) => spec_table_field::<T>(j@, name@) == Some(spec_entry_models(t@)),
            None => spec_table_field::<T>(j@, name@) is None,
        },
{
    match j.field(name) {
        Some(v) => read_table::<T>(v),
        None => None,
    }
}

/// The table that the field `name` of `j` carries, where the field may be
/// missing or `null`.
pub open spec fn spec_optional_table<T: Wire>(j: JsonView, name: Seq<char>) -> Option<
    Option<Seq<(Seq<char>, T::Model)>>,
> {
    match j.field(name) {
        Some(v) => if v is Null {
            Some(None)
        } else {
            match spec_table::<T>(v) {
                Some(t) => Some(Some(t)),
                None => None,
            }
        },
        None => Some(None),
    }
}

/// The models of a table that may be missing.
pub open spec fn spec_optional_entry_models<T: Wire>(table: Option<Vec<(String, T)>>) -> Option<
    Seq<(Seq<char>, T::Model)>,
> {
    match table {
        Some(t) => Some(spec_entry_models(t@)),
        None => None,
    }
}

/// Reads the field `name` of `j` as a table, where the field may be
/// missing or `null`.
pub fn read_optional_table<T: Wire>(j: &Json, name: &str) -> (r: Option<Option<Vec<(String, T)>>>)
    ensures
        match r {
            Some(t) => spec_optional_table::<T>(j@, name@) == Some(spec_optional_entry_models(t)),
            None => spec_optional_table::<T>(j@, name@) is None,
        },
{
    match j.field(name) {
        Some(v) => match v {
            Json::Null => Some(None),
            _ => match read_table::<T>(v) {
                Some(t) => Some(Some(t)),
                None => None,
            },
        },
        None => Some(None),
    }
}

/// Whether `j` is an object that has no field but those of `allowed`.
pub open spec fn spec_only_fields(j: JsonView, allowed: Seq<Seq<char>>) -> bool {
    &&& j is Obj
    &&& forall|i: int|
        0 <= i < j->Obj_0.len() ==> allowed.contains((#[trigger] j->Obj_0[i]).0)
}

/// Whether `j` is an object that has no field but those of `allowed`.
pub fn only_fields(j: &Json, allowed: &Vec<String>) -> (yes: bool)
    ensures
        yes == spec_only_fields(j@, allowed.deep_view()),
{
    match j.as_obj() {
        None => false,
        Some(entries) => {
            let ghost all = j@->Obj_0;
            let ghost names = allowed.deep_view();
            let mut i: usize = 0;
            while i < entries.len()
                invariant
                    i <= entries.len(),
                    j@ == JsonView::Obj(all),
                    all == spec_entry_views(entries@),
                    names == allowed.deep_view(),
                    forall|k: int| 0 <= k < i ==> names.contains((#[trigger] all[k]).0),
                decreases entries.len() - i,
            {
                let mut found = false;
                let mut a: usize = 0;
                while a < allowed.len()
                    invariant
                        a <= allowed.len(),
                        i < entries.len(),
                        names == allowed.deep_view(),
                        all == spec_entry_views(entries@),
                        found ==> names.contains(all[i as int].0),
                        !found ==> forall|b: int| 0 <= b < a ==> names[b] != all[i as int].0,
                    decreases allowed.len() - a,
                {
                    if allowed[a] == entries[i].name {
                        assert(names[a as int] == all[i as int].0);
                        found = true;
                    }
                    a += 1;
                }
                if !found {
                    assert(!names.contains(j@->Obj_0[i as int].0));
                    return false;
                }
                i += 1;
            }
            true
        },
    }
}

} // verus!
