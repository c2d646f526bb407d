//! The hash tables of the session state, which are those of `bevy`.

use vstd::prelude::*;
use bevy::platform::collections::{HashMap, HashSet};
use super::datapackage::MyDataPackage;
use super::shared_types::{LocationID, PlayerID};

verus! {

/// The hasher of `bevy`'s tables. Nothing is known of it here.
#[verifier::external_type_specification]
#[verifier::external_body]
pub struct ExFixedHasher(bevy::platform::hash::FixedHasher);

/// The hash map of `bevy`. What a map holds is told by the names below,
/// one for each kind of map that the session keeps.
#[verifier::external_type_specification]
#[verifier::external_body]
#[verifier::reject_recursive_types(K)]
#[verifier::reject_recursive_types(V)]
#[verifier::reject_recursive_types(S)]
pub struct ExHashMap<K, V, S>(bevy::platform::collections::HashMap<K, V, S>);

/// The hash set of `bevy`. What a set holds is told by a name, as for the
/// maps.
#[verifier::external_type_specification]
#[verifier::external_body]
#[verifier::reject_recursive_types(T)]
#[verifier::reject_recursive_types(S)]
pub struct ExHashSet<T, S>(bevy::platform::collections::HashSet<T, S>);

/// The location ids that a set holds.
pub uninterp spec fn location_set(set: HashSet<LocationID>) -> Set<int>;

/// `HashSet::new`: a set that holds nothing.
#[verifier::external_body]
pub(crate) fn locations_new() -> (set: HashSet<LocationID>)
    ensures
        location_set(set) == Set::<int>::empty(),
{
    HashSet::new()
}

/// `HashSet::insert`: afterwards the set holds `id` besides what it held.
#[verifier::external_body]
pub(crate) fn locations_insert(set: &mut HashSet<LocationID>, id: LocationID)
    ensures
        location_set(*final(set)) == location_set(*old(set)).insert(id as int),
{
    set.insert(id);
}

/// `HashSet::contains`: whether the set holds `id`.
#[verifier::external_body]
pub(crate) fn locations_contains(set: &HashSet<LocationID>, id: LocationID) -> (held: bool)
    ensures
        held == location_set(*set).contains(id as int),
{
    set.contains(&id)
}

/// The game of each slot that a directory holds.
pub uninterp spec fn directory_map(map: HashMap<PlayerID, String>) -> Map<int, Seq<char>>;

/// `HashMap::new`: a map that holds nothing.
#[verifier::external_body]
pub(crate) fn directory_new() -> (directory: HashMap<PlayerID, String>)
    ensures
        directory_map(directory) == (Map::<int, Seq<char>>::empty()),
{
    HashMap::new()
}

/// `HashMap::insert`: afterwards `slot` has `game`, and every other slot
/// what it had.
#[verifier::external_body]
pub(crate) fn directory_insert(map: &mut HashMap<PlayerID, String>, slot: PlayerID, game: String)
    ensures
        directory_map(*final(map)) == directory_map(*old(map)).insert(slot as int, game@),
{
    map.insert(slot, game);
}

/// `HashMap::get`: the game of `slot`, where the map holds one.
#[verifier::external_body]
pub(crate) fn directory_get(map: &HashMap<PlayerID, String>, slot: PlayerID) -> (game: Option<
    &String,
>)
    ensures
        match game {
            Some(g) => directory_map(*map).contains_key(slot as int) && directory_map(*map)[slot as int]
                == g@,
            None => !directory_map(*map).contains_key(slot as int),
        },
{
    map.get(&slot)
}

/// The catalog of each game that a cache holds.
pub uninterp spec fn catalog_map(map: HashMap<String, MyDataPackage>) -> Map<
    Seq<char>,
    MyDataPackage,
>;

/// `HashMap::new`: a map that holds nothing.
#[verifier::external_body]
pub(crate) fn catalogs_new() -> (catalogs: HashMap<String, MyDataPackage>)
    ensures
        catalog_map(catalogs) == (Map::<Seq<char>, MyDataPackage>::empty()),
{
    HashMap::new()
}

/// `HashMap::insert`: afterwards `game` has `catalog`, and every other game
/// what it had.
#[verifier::external_body]
pub(crate) fn catalogs_insert(
    map: &mut HashMap<String, MyDataPackage>,
    game: String,
    catalog: MyDataPackage,
)
    ensures
        catalog_map(*final(map)) == catalog_map(*old(map)).insert(game@, catalog),
{
    map.insert(game, catalog);
}

/// `HashMap::get`: the catalog of `game`, where the map holds one.
#[verifier::external_body]
pub(crate) fn catalogs_get<'a>(map: &'a HashMap<String, MyDataPackage>, game: &str) -> (catalog:
    Option<&'a MyDataPackage>)
    ensures
        match catalog {
            Some(c) => catalog_map(*map).contains_key(game@) && catalog_map(*map)[game@] == *c,
            None => !catalog_map(*map).contains_key(game@),
        },
{
    map.get(game)
}

} // verus!
