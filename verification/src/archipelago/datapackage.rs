//! Catalogs of item and location names, and their form in the cache.

use vstd::prelude::*;
use super::client_messages::member;
use super::decimal::{
    decimal_text, lemma_decimal_round_trip, parse_isize, spec_decimal, spec_decimal_value,
};
use super::json::{
    json_text_value, json_value_text, parse_json, print_json, spec_lookup, Json, JsonView, Member,
};
use super::server_messages::DataPackageObject;
use super::shared_types::{ItemID, LocationID};

verus! {

/// The catalog of one game: its checksum and the tables between the names
/// and the numbers of its items and locations. Each table is the list of
/// its entries in the order of the wire.
#[derive(Debug)]
pub struct MyDataPackage {
    pub checksum: String,
    pub location_name_to_id: Vec<(String, LocationID)>,
    pub location_id_to_name: Vec<(LocationID, String)>,
    pub item_name_to_id: Vec<(String, ItemID)>,
    pub item_id_to_name: Vec<(ItemID, String)>,
}

/// The mathematical value of a catalog.
pub struct CatalogView {
    pub checksum: Seq<char>,
    pub location_name_to_id: Seq<(Seq<char>, isize)>,
    pub location_id_to_name: Seq<(isize, Seq<char>)>,
    pub item_name_to_id: Seq<(Seq<char>, isize)>,
    pub item_id_to_name: Seq<(isize, Seq<char>)>,
}

impl View for MyDataPackage {
    type V = CatalogView;

    open spec fn view(&self) -> CatalogView {
        CatalogView {
            checksum: self.checksum@,
            location_name_to_id: self.location_name_to_id.deep_view(),
            location_id_to_name: self.location_id_to_name.deep_view(),
            item_name_to_id: self.item_name_to_id.deep_view(),
            item_id_to_name: self.item_id_to_name.deep_view(),
        }
    }
}

/// One file of the cache: a game and its catalog.
#[derive(Debug)]
pub struct DataPackageSave {
    pub game: String,
    pub datapackage: MyDataPackage,
}

/// What is to be written to the cache: the path below the cache directory
/// of the platform, part by part, and the content of the file.
#[derive(Debug)]
pub struct CacheFile {
    pub path: Vec<String>,
    pub content: String,
}

/// The table from numbers to names that belongs to a table from names to
/// numbers: entry by entry, the two sides exchanged.
pub open spec fn spec_reverse(table: Seq<(Seq<char>, isize)>) -> Seq<(isize, Seq<char>)> {
    Seq::new(table.len(), |i: int| (table[i].1, table[i].0))
}

/// The catalog that is kept for what the server sent of a game.
pub open spec fn spec_catalog_of(object: DataPackageObject) -> CatalogView {
    CatalogView {
        checksum: object.checksum@,
        location_name_to_id: object.location_name_to_id.deep_view(),
        location_id_to_name: spec_reverse(object.location_name_to_id.deep_view()),
        item_name_to_id: object.item_name_to_id.deep_view(),
        item_id_to_name: spec_reverse(object.item_name_to_id.deep_view()),
    }
}

/// The object that holds a table from names to numbers.
pub open spec fn spec_name_table_json(table: Seq<(Seq<char>, isize)>) -> JsonView {
    JsonView::Obj(Seq::new(table.len(), |i: int| (table[i].0, JsonView::Int(table[i].1 as int))))
}

/// The object that holds a table from numbers to names, each number as its
/// decimal text.
pub open spec fn spec_id_table_json(table: Seq<(isize, Seq<char>)>) -> JsonView {
    JsonView::Obj(
        Seq::new(table.len(), |i: int| (spec_decimal(table[i].0 as int), JsonView::Str(table[i].1))),
    )
}

pub open spec fn spec_catalog_json(catalog: CatalogView) -> JsonView {
    JsonView::Obj(
        seq![
            ("checksum"@, JsonView::Str(catalog.checksum)),
            ("location_name_to_id"@, spec_name_table_json(catalog.location_name_to_id)),
            ("location_id_to_name"@, spec_id_table_json(catalog.location_id_to_name)),
            ("item_name_to_id"@, spec_name_table_json(catalog.item_name_to_id)),
            ("item_id_to_name"@, spec_id_table_json(catalog.item_id_to_name)),
        ],
    )
}

/// The content of the cache file of `game`, as a value.
pub open spec fn spec_cache_entry_json(game: Seq<char>, catalog: CatalogView) -> JsonView {
    JsonView::Obj(
        seq![("game"@, JsonView::Str(game)), ("datapackage"@, spec_catalog_json(catalog))],
    )
}

/// The path of the cache file of `game` below the cache directory.
pub open spec fn spec_cache_path(game: Seq<char>) -> Seq<Seq<char>> {
    seq!["elementipelago"@, "datapackages"@, game + ".json"@]
}

/// Whether an entry of a table from names to numbers is well formed.
pub open spec fn spec_name_entry_ok(entry: (Seq<char>, JsonView)) -> bool {
    entry.1.as_int_in(isize::MIN as int, isize::MAX as int) is Some
}

/// The table from names to numbers that an object holds.
pub open spec fn spec_name_table(j: JsonView) -> Option<Seq<(Seq<char>, isize)>> {
    match j {
        JsonView::Obj(entries) => if forall|i: int|
            0 <= i < entries.len() ==> spec_name_entry_ok(#[trigger] entries[i]) {
            Some(Seq::new(entries.len(), |i: int| (entries[i].0, entries[i].1->Int_0 as isize)))
        } else {
            None
        },
        _ => None,
    }
}

/// Whether an entry of a table from numbers to names is well formed.
pub open spec fn spec_id_entry_ok(entry: (Seq<char>, JsonView)) -> bool {
    &&& entry.1 is Str
    &&& spec_decimal_value(entry.0) matches Some(v)
    &&& isize::MIN <= v <= isize::MAX
}

/// The table from numbers to names that an object holds.
pub open spec fn spec_id_table(j: JsonView) -> Option<Seq<(isize, Seq<char>)>> {
    match j {
        JsonView::Obj(entries) => if forall|i: int|
            0 <= i < entries.len() ==> spec_id_entry_ok(#[trigger] entries[i]) {
            Some(
                Seq::new(
                    entries.len(),
                    |i: int| (spec_decimal_value(entries[i].0)->0 as isize, entries[i].1->Str_0),
                ),
            )
        } else {
            None
        },
        _ => None,
    }
}

/// The catalog that a value holds: the checksum and the four tables must
/// be there; other fields are passed over.
pub open spec fn spec_catalog(j: JsonView) -> Option<CatalogView> {
    match (
        j.field("checksum"@),
        j.field("location_name_to_id"@),
        j.field("location_id_to_name"@),
        j.field("item_name_to_id"@),
        j.field("item_id_to_name"@),
    ) {
        (Some(checksum), Some(ln), Some(li), Some(inn), Some(ii)) => match (
            checksum.as_str(),
            spec_name_table(ln),
            spec_id_table(li),
            spec_name_table(inn),
            spec_id_table(ii),
        ) {
            (Some(checksum), Some(ln), Some(li), Some(inn), Some(ii)) => Some(
                CatalogView {
                    checksum,
                    location_name_to_id: ln,
                    location_id_to_name: li,
                    item_name_to_id: inn,
                    item_id_to_name: ii,
                },
            ),
            _ => None,
        },
        _ => None,
    }
}

/// The game and the catalog that the content of a cache file holds.
pub open spec fn spec_cache_entry(j: JsonView) -> Option<(Seq<char>, CatalogView)> {
    match (j.field("game"@), j.field("datapackage"@)) {
        (Some(game), Some(datapackage)) => match (game.as_str(), spec_catalog(datapackage)) {
            (Some(game), Some(catalog)) => Some((game, catalog)),
            _ => None,
        },
        _ => None,
    }
}

/// What reading a cache file with the text `content` gives.
pub open spec fn spec_load(content: Seq<char>) -> Option<(Seq<char>, CatalogView)> {
    match json_text_value(content) {
        Some(j) => spec_cache_entry(j),
        None => None,
    }
}

/// A copy of a table from names to numbers.
pub fn clone_name_table(table: &Vec<(String, isize)>) -> (copy: Vec<(String, isize)>)
    ensures
        copy.deep_view() == table.deep_view(),
{
    let mut copy: Vec<(String, isize)> = Vec::new();
    let mut i: usize = 0;
    while i < table.len()
        invariant
            i <= table.len(),
            copy.len() == i,
            forall|k: int|
                0 <= k < i ==> (#[trigger] copy[k]).0@ == table[k].0@ && copy[k].1 == table[k].1,
        decreases table.len() - i,
    {
        copy.push((table[i].0.clone(), table[i].1));
        i += 1;
    }
    copy
}

/// The table from numbers to names that belongs to `table`.
pub fn reverse_table(table: &Vec<(String, isize)>) -> (reverse: Vec<(isize, String)>)
    ensures
        reverse.deep_view() == spec_reverse(table.deep_view()),
{
    let mut reverse: Vec<(isize, String)> = Vec::new();
    let mut i: usize = 0;
    while i < table.len()
        invariant
            i <= table.len(),
            reverse.len() == i,
            forall|k: int|
                0 <= k < i ==> (#[trigger] reverse[k]).1@ == table[k].0@ && reverse[k].0
                    == table[k].1,
        decreases table.len() - i,
    {
        reverse.push((table[i].1, table[i].0.clone()));
        i += 1;
    }
    reverse
}

impl MyDataPackage {
    /// The catalog to keep for what the server sent of a game: its tables
    /// from names to numbers, and the reverse of each.
    pub fn from_object(object: &DataPackageObject) -> (catalog: MyDataPackage)
        ensures
            catalog@ == spec_catalog_of(*object),
    {
        MyDataPackage {
            checksum: object.checksum.clone(),
            location_name_to_id: clone_name_table(&object.location_name_to_id),
            location_id_to_name: reverse_table(&object.location_name_to_id),
            item_name_to_id: clone_name_table(&object.item_name_to_id),
            item_id_to_name: reverse_table(&object.item_name_to_id),
        }
    }

    /// The form of this catalog in a cache file.
    pub fn to_json(&self) -> (j: Json)
        ensures
            j@ == spec_catalog_json(self@),
    {
        let mut fields: Vec<Member> = Vec::new();
        fields.push(member("checksum", Json::Str(self.checksum.clone())));
        fields.push(member("location_name_to_id", name_table_json(&self.location_name_to_id)));
        fields.push(member("location_id_to_name", id_table_json(&self.location_id_to_name)));
        fields.push(member("item_name_to_id", name_table_json(&self.item_name_to_id)));
        fields.push(member("item_id_to_name", id_table_json(&self.item_id_to_name)));
        let j = Json::Obj(fields);
        assert(j@->Obj_0 =~= spec_catalog_json(self@)->Obj_0);
        j
    }

    /// The catalog that `j` holds.
    pub fn from_json(j: &Json) -> (r: Option<MyDataPackage>)
        ensures
            match r {
                Some(c) => spec_catalog(j@) == Some(c@),
                None => spec_catalog(j@) is None,
            },
    {
        let checksum = match j.field("checksum") {
            Some(v) => match v.as_str() {
                Some(s) => s.clone(),
                None => {
                    return None;
                },
            },
            None => {
                return None;
            },
        };
        let location_name_to_id = match j.field("location_name_to_id") {
            Some(v) => match decode_name_table(v) {
                Some(t) => t,
                None => {
                    return None;
                },
            },
            None => {
                return None;
            },
        };
        let location_id_to_name = match j.field("location_id_to_name") {
            Some(v) => match decode_id_table(v) {
                Some(t) => t,
                None => {
                    return None;
                },
            },
            None => {
                return None;
            },
        };
        let item_name_to_id = match j.field("item_name_to_id") {
            Some(v) => match decode_name_table(v) {
                Some(t) => t,
                None => {
                    return None;
                },
            },
            None => {
                return None;
            },
        };
        let item_id_to_name = match j.field("item_id_to_name") {
            Some(v) => match decode_id_table(v) {
                Some(t) => t,
                None => {
                    return None;
                },
            },
            None => {
                return None;
            },
        };
        Some(
            MyDataPackage {
                checksum,
                location_name_to_id,
                location_id_to_name,
                item_name_to_id,
                item_id_to_name,
            },
        )
    }
}

/// The object that holds a table from names to numbers.
pub fn name_table_json(table: &Vec<(String, isize)>) -> (j: Json)
    ensures
        j@ == spec_name_table_json(table.deep_view()),
{
    let mut entries: Vec<Member> = Vec::new();
    let mut i: usize = 0;
    while i < table.len()
        invariant
            i <= table.len(),
            entries.len() == i,
            forall|k: int|
                0 <= k < i ==> (#[trigger] entries[k]).name@ == table[k].0@ && entries[k].value@
                    == JsonView::Int(table[k].1 as int),
        decreases table.len() - i,
    {
        let value = super::client_messages::json_isize(table[i].1);
        entries.push(Member { name: table[i].0.clone(), value });
        i += 1;
    }
    let j = Json::Obj(entries);
    assert(j@->Obj_0 =~= spec_name_table_json(table.deep_view())->Obj_0);
    j
}

/// The object that holds a table from numbers to names.
pub fn id_table_json(table: &Vec<(isize, String)>) -> (j: Json)
    ensures
        j@ == spec_id_table_json(table.deep_view()),
{
    let mut entries: Vec<Member> = Vec::new();
    let mut i: usize = 0;
    while i < table.len()
        invariant
            i <= table.len(),
            entries.len() == i,
            forall|k: int|
                0 <= k < i ==> (#[trigger] entries[k]).name@ == spec_decimal(table[k].0 as int)
                    && entries[k].value@ == JsonView::Str(table[k].1@),
        decreases table.len() - i,
    {
        let value = Json::Str(table[i].1.clone());
        entries.push(Member { name: decimal_text(table[i].0), value });
        i += 1;
    }
    let j = Json::Obj(entries);
    assert(j@->Obj_0 =~= spec_id_table_json(table.deep_view())->Obj_0);
    j
}

/// The table from names to numbers that `j` holds.
pub fn decode_name_table(j: &Json) -> (r: Option<Vec<(String, isize)>>)
    ensures
        match r {
            Some(t) => spec_name_table(j@) == Some(t.deep_view()),
            None => spec_name_table(j@) is None,
        },
{
    match j.as_obj() {
        None => None,
        Some(entries) => {
            let ghost all = j@->Obj_0;
            let mut table: Vec<(String, isize)> = Vec::new();
            let mut i: usize = 0;
            while i < entries.len()
                invariant
                    i <= entries.len(),
                    j@ == JsonView::Obj(all),
                    all.len() == entries.len(),
                    forall|k: int|
                        0 <= k < entries.len() ==> #[trigger] all[k] == (
                            entries[k].name@,
                            entries[k].value@,
                        ),
                    table.len() == i,
                    forall|k: int|
                        0 <= k < i ==> spec_name_entry_ok(#[trigger] all[k]) && table[k].0@
                            == all[k].0 && table[k].1 == all[k].1->Int_0,
                decreases entries.len() - i,
            {
                match entries[i].value.as_isize() {
                    Some(id) => {
                        table.push((entries[i].name.clone(), id));
                    },
                    None => {
                        assert(!spec_name_entry_ok(all[i as int]));
                        return None;
                    },
                }
                i += 1;
            }
            Some(table)
        },
    }
}

/// The table from numbers to names that `j` holds.
pub fn decode_id_table(j: &Json) -> (r: Option<Vec<(isize, String)>>)
    ensures
        match r {
            Some(t) => spec_id_table(j@) == Some(t.deep_view()),
            None => spec_id_table(j@) is None,
        },
{
    match j.as_obj() {
        None => None,
        Some(entries) => {
            let ghost all = j@->Obj_0;
            let mut table: Vec<(isize, String)> = Vec::new();
            let mut i: usize = 0;
            while i < entries.len()
                invariant
                    i <= entries.len(),
                    j@ == JsonView::Obj(all),
                    all.len() == entries.len(),
                    forall|k: int|
                        0 <= k < entries.len() ==> #[trigger] all[k] == (
                            entries[k].name@,
                            entries[k].value@,
                        ),
                    table.len() == i,
                    forall|k: int|
                        0 <= k < i ==> spec_id_entry_ok(#[trigger] all[k]) && table[k].1@
                            == all[k].1->Str_0 && table[k].0 == spec_decimal_value(all[k].0)->0,
                decreases entries.len() - i,
            {
                let id = match parse_isize(entries[i].name.as_str()) {
                    Some(id) => id,
                    None => {
                        assert(!spec_id_entry_ok(all[i as int]));
                        return None;
                    },
                };
                match entries[i].value.as_str() {
                    Some(name) => {
                        table.push((id, name.clone()));
                    },
                    None => {
                        return None;
                    },
                }
                i += 1;
            }
            Some(table)
        },
    }
}

impl DataPackageSave {
    pub open spec fn spec_pair(self) -> (Seq<char>, CatalogView) {
        (self.game@, self.datapackage@)
    }

    /// The game and the catalog that `j` holds.
    pub fn from_json(j: &Json) -> (r: Option<DataPackageSave>)
        ensures
            match r {
                Some(save) => spec_cache_entry(j@) == Some(save.spec_pair()),
                None => spec_cache_entry(j@) is None,
            },
    {
        let game = match j.field("game") {
            Some(v) => match v.as_str() {
                Some(s) => s.clone(),
                None => {
                    return None;
                },
            },
            None => {
                return None;
            },
        };
        match j.field("datapackage") {
            Some(v) => match MyDataPackage::from_json(v) {
                Some(datapackage) => Some(DataPackageSave { game, datapackage }),
                None => None,
            },
            None => None,
        }
    }
}

/// The content of the cache file of `game`, as a value.
pub fn cache_entry_json(game: &str, datapackage: &MyDataPackage) -> (j: Json)
    ensures
        j@ == spec_cache_entry_json(game@, datapackage@),
{
    let mut fields: Vec<Member> = Vec::new();
    fields.push(member("game", Json::Str(game.to_string())));
    fields.push(member("datapackage", datapackage.to_json()));
    let j = Json::Obj(fields);
    assert(j@->Obj_0 =~= spec_cache_entry_json(game@, datapackage@)->Obj_0);
    j
}

/// What is to be written so that the cache holds `datapackage` for `game`:
/// one file, named after the game, that replaces what was there.
pub fn save_datapackage(game: &str, datapackage: &MyDataPackage) -> (file: CacheFile)
    ensures
        file.path.deep_view() == spec_cache_path(game@),
        file.content@ == json_value_text(spec_cache_entry_json(game@, datapackage@)),
{
    let mut name = game.to_string();
    name.append(".json");
    let mut path: Vec<String> = Vec::new();
    path.push("elementipelago".to_string());
    path.push("datapackages".to_string());
    path.push(name);
    CacheFile { path, content: print_json(&cache_entry_json(game, datapackage)) }
}

/// The game and the catalog that a cache file with the text `content`
/// holds; `None` where it holds none, and the file is to be passed over.
pub fn load_datapackage(content: &str) -> (r: Option<DataPackageSave>)
    ensures
        match r {
            Some(save) => spec_load(content@) == Some(save.spec_pair()),
            None => spec_load(content@) is None,
        },
{
    match parse_json(content) {
        Some(j) => DataPackageSave::from_json(&j),
        None => None,
    }
}

/// The object that holds a table from names to numbers holds that table.
pub proof fn lemma_name_table_round_trip(table: Seq<(Seq<char>, isize)>)
    ensures
        spec_name_table(spec_name_table_json(table)) == Some(table),
{
}

/// The object that holds a table from numbers to names holds that table.
pub proof fn lemma_id_table_round_trip(table: Seq<(isize, Seq<char>)>)
    ensures
        spec_id_table(spec_id_table_json(table)) == Some(table),
{
    let entries = spec_id_table_json(table)->Obj_0;
    assert forall|i: int| 0 <= i < entries.len() implies spec_id_entry_ok(
        #[trigger] entries[i],
    ) && spec_decimal_value(entries[i].0) == Some(table[i].0 as int) by {
        lemma_decimal_round_trip(table[i].0 as int);
    }
}

/// The value that is written for a catalog holds that catalog.
pub proof fn lemma_catalog_round_trip(catalog: CatalogView)
    ensures
        spec_catalog(spec_catalog_json(catalog)) == Some(catalog),
{
    reveal_strlit("checksum");
    reveal_strlit("location_name_to_id");
    reveal_strlit("location_id_to_name");
    reveal_strlit("item_name_to_id");
    reveal_strlit("item_id_to_name");
    reveal_with_fuel(spec_lookup, 6);
    lemma_name_table_round_trip(catalog.location_name_to_id);
    lemma_id_table_round_trip(catalog.location_id_to_name);
    lemma_name_table_round_trip(catalog.item_name_to_id);
    lemma_id_table_round_trip(catalog.item_id_to_name);
    assert("location_name_to_id"@[9] != "location_id_to_name"@[9]);
    assert("item_name_to_id"@[5] != "item_id_to_name"@[5]);
    assert("checksum"@.len() == 8 && "location_name_to_id"@.len() == 19 && "item_name_to_id"@.len()
        == 15);
}

/// The content of a cache file holds the game and the catalog that it was
/// written for: what is saved is what is loaded, as far as the values go.
pub proof fn lemma_cache_entry_round_trip(game: Seq<char>, catalog: CatalogView)
    ensures
        spec_cache_entry(spec_cache_entry_json(game, catalog)) == Some((game, catalog)),
{
    reveal_strlit("game");
    reveal_strlit("datapackage");
    reveal_with_fuel(spec_lookup, 3);
    lemma_catalog_round_trip(catalog);
    assert("game"@.len() != "datapackage"@.len());
}

} // verus!
