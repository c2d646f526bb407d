//! What the playfield asks of the recipes and the elements.

use vstd::prelude::*;
use vstd::string::StringExecFns;
use crate::archipelago::decimal::{digits_text, spec_digits};
use crate::graph::{find_recipe, spec_recipe_place, Element, Recipe, Status};

verus! {

/// The recipes of the game and the list of its elements, once the session
/// has told how to make them.
#[derive(Debug)]
pub struct RecipeGraph(pub Option<(Vec<Recipe>, Vec<Element>)>);

/// What comes of putting `el1` and `el2` together, whichever of the two is
/// named first in the recipe.
pub open spec fn spec_recipe_for(recipes: Seq<Recipe>, el1: Element, el2: Element) -> Option<
    Seq<Element>,
> {
    match spec_recipe_place(recipes, (el1, el2)) {
        Some(a) => Some(recipes[a].products@),
        None => match spec_recipe_place(recipes, (el2, el1)) {
            Some(a) => Some(recipes[a].products@),
            None => None,
        },
    }
}

fn copy_elements(elements: &Vec<Element>) -> (copy: Vec<Element>)
    ensures
        copy@ == elements@,
{
    let mut copy: Vec<Element> = Vec::new();
    let mut i: usize = 0;
    while i < elements.len()
        invariant
            i <= elements.len(),
            copy@ == elements@.take(i as int),
        decreases elements.len() - i,
    {
        copy.push(elements[i]);
        i += 1;
    }
    copy
}

impl RecipeGraph {
    /// Get the product resulting from the given ingredients, if it exists.
    /// Lookup is done for every order of ingredients.
    pub fn get_recipe(&self, el1: Element, el2: Element) -> (products: Option<Vec<Element>>)
        ensures
            match self.0 {
                Some(graph) => match products {
                    Some(p) => spec_recipe_for(graph.0@, el1, el2) == Some(p@),
                    None => spec_recipe_for(graph.0@, el1, el2) is None,
                },
                None => products is None,
            },
    {
        match &self.0 {
            None => None,
            Some(graph) => match find_recipe(&graph.0, (el1, el2)) {
                Some(a) => Some(copy_elements(&graph.0[a].products)),
                None => match find_recipe(&graph.0, (el2, el1)) {
                    Some(a) => Some(copy_elements(&graph.0[a].products)),
                    None => None,
                },
            },
        }
    }
}

/// The word for an element of the kind `kind`.
pub open spec fn spec_kind_word(kind: Status) -> Seq<char> {
    match kind {
        Status::INPUT => "Element"@,
        Status::INTERMEDIATE => "Intermediate"@,
        Status::OUTPUT => "Compound"@,
    }
}

/// The name under which an element is shown: the word for its kind and
/// its number.
pub open spec fn spec_display_name(id: Element) -> Seq<char> {
    spec_kind_word(id.1) + " #"@ + spec_digits(id.0 as nat)
}

/// The name under which an element is shown.
pub fn get_element_display_name(id: Element) -> (name: String)
    ensures
        name@ == spec_display_name(id),
{
    let word = match id.1 {
        Status::INPUT => "Element",
        Status::INTERMEDIATE => "Intermediate",
        Status::OUTPUT => "Compound",
    };
    let name = word.to_string().concat(" #").concat(digits_text(id.0).as_str());
    name
}

/// How many icons there are for elements.
pub const ICON_COUNT: u64 = 25;

/// The seed of the hash that spreads the elements over the icons.
pub const ICON_SEED: u64 = 42069;

/// `FixedState::with_seed(seed).hash_one(id)` of `foldhash`, as `bevy`
/// hands it on. The hash of a value differs between platforms, so nothing
/// is claimed of it.
#[verifier::external_body]
fn hash_element(seed: u64, id: Element) -> u64 {
    core::hash::BuildHasher::hash_one(&bevy::platform::hash::FixedState::with_seed(seed), id)
}

/// The icon for an element whose hash is `key`.
pub fn icon_index(key: u64) -> (index: usize)
    ensures
        index == key % ICON_COUNT,
{
    (key % ICON_COUNT) as usize
}

/// The icon for an element: one of the icons, chosen by the hash of the
/// element.
pub fn get_element_icon_idx(id: Element) -> (index: usize)
    ensures
        index < ICON_COUNT,
{
    icon_index(hash_element(ICON_SEED, id))
}

} // verus!
