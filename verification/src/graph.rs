//! Recipe graph generation.

use vstd::prelude::*;
use bevy::platform::collections::HashSet;

verus! {

/// The value a generator with state `(x, y)` hands out next.
pub open spec fn spec_next_output(x: u64, y: u64) -> u64 {
    let a: u64 = x ^ (x << 23);
    let b: u64 = a ^ (a >> 17);
    b ^ y
}

/// What an element is in the recipe graph: given at the start, made on the
/// way, or a goal.
#[derive(Clone, Copy, PartialEq, Eq, Debug, Hash, Structural)]
pub enum Status {
    INPUT,
    INTERMEDIATE,
    OUTPUT,
}

/// An element: its number among those of its kind, and its kind.
pub type Element = (u64, Status);

/// Deterministic pseudo-random number generator with two words of state.
pub struct RNG {
    pub seed_x: u64,
    pub seed_y: u64,
}

impl RNG {
    pub fn init(seed: u64) -> (rng: Self)
        ensures
            rng.seed_x == seed,
            rng.seed_y == seed << 1,
            rng.seed_y as int == (2 * seed) % 0x1_0000_0000_0000_0000,
    {
        assert((seed << 1) as int == (2 * seed) % 0x1_0000_0000_0000_0000) by (bit_vector);
        RNG { seed_x: seed, seed_y: seed << 1 }
    }

    pub fn get_random(&mut self) -> (out: u64)
        ensures
            out == spec_next_output(old(self).seed_x, old(self).seed_y),
            final(self).seed_x == old(self).seed_y,
            final(self).seed_y as int == (out + old(self).seed_y) % 0x1_0000_0000_0000_0000,
    {
        let mut x: u64 = self.seed_x;
        let y: u64 = self.seed_y;
        self.seed_x = self.seed_y;
        x ^= x << 23;
        x ^= x >> 17;
        x ^= y;
        self.seed_y = x.wrapping_add(y);
        x
    }
}

/// The pairs of numbers that a set holds.
pub uninterp spec fn pair_set(set: HashSet<(usize, usize)>) -> Set<(usize, usize)>;

/// `HashSet::new` of `bevy`: a set that holds nothing.
#[verifier::external_body]
fn pairs_new() -> (set: HashSet<(usize, usize)>)
    ensures
        pair_set(set) == Set::<(usize, usize)>::empty(),
{
    HashSet::new()
}

/// `HashSet::insert` of `bevy`: afterwards the set holds `pair` besides
/// what it held.
#[verifier::external_body]
fn pairs_insert(set: &mut HashSet<(usize, usize)>, pair: (usize, usize))
    ensures
        pair_set(*final(set)) == pair_set(*old(set)).insert(pair),
{
    set.insert(pair);
}

/// `HashSet::contains` of `bevy`: whether the set holds `pair`.
#[verifier::external_body]
fn pairs_contains(set: &HashSet<(usize, usize)>, pair: (usize, usize)) -> (held: bool)
    ensures
        held == pair_set(*set).contains(pair),
{
    set.contains(&pair)
}

/// One step of the construction: the element `(.2, .3)` is made from the
/// elements of the steps `.0` and `.1`. An element that is given at the
/// start has 0 in both places.
pub type Edge = (usize, usize, u64, Status);

/// How many numbers the generator may draw before it gives up.
pub const DRAW_LIMIT: u64 = 0x400_0000;

/// The numbers from `from + 1` to `to`.
pub open spec fn spec_numbers(from: u64, to: u64) -> Seq<u64> {
    if to > from {
        Seq::new((to - from) as nat, |i: int| (from + 1 + i) as u64)
    } else {
        Seq::empty()
    }
}

/// The numbers from `from + 1` to `to`.
pub fn number_list(from: u64, to: u64) -> (list: Vec<u64>)
    ensures
        list@ == spec_numbers(from, to),
{
    let mut list: Vec<u64> = Vec::new();
    let mut x: u64 = from;
    while x < to
        invariant
            from <= x,
            x <= to || x == from,
            list@ == spec_numbers(from, x),
        decreases to - x,
    {
        x += 1;
        list.push(x);
    }
    list
}

/// The elements of one kind with the numbers from 1 to `count`.
pub open spec fn spec_elements_of(count: u64, kind: Status) -> Seq<Element> {
    Seq::new(count as nat, |i: int| ((i + 1) as u64, kind))
}

/// All elements of a game: the given ones, those made on the way and the
/// goals, each kind by its numbers.
pub open spec fn spec_all_elements(inputs: u64, intermediates: u64, outputs: u64) -> Seq<Element> {
    spec_elements_of(inputs, Status::INPUT) + spec_elements_of(intermediates, Status::INTERMEDIATE)
        + spec_elements_of(outputs, Status::OUTPUT)
}

fn push_elements(elements: &mut Vec<Element>, count: u64, kind: Status)
    ensures
        final(elements)@ == old(elements)@ + spec_elements_of(count, kind),
{
    let mut x: u64 = 0;
    while x < count
        invariant
            x <= count,
            elements@ == old(elements)@ + spec_elements_of(x, kind),
        decreases count - x,
    {
        x += 1;
        elements.push((x, kind));
    }
}

/// All elements of a game.
pub fn all_elements(inputs: u64, intermediates: u64, outputs: u64) -> (elements: Vec<Element>)
    ensures
        elements@ == spec_all_elements(inputs, intermediates, outputs),
{
    let mut elements: Vec<Element> = Vec::new();
    push_elements(&mut elements, inputs, Status::INPUT);
    push_elements(&mut elements, intermediates, Status::INTERMEDIATE);
    push_elements(&mut elements, outputs, Status::OUTPUT);
    elements
}

/// How many elements are not given at the start and have to be made.
pub open spec fn spec_to_place(inputs: u64, intermediates: u64, outputs: u64, start_items: u64) -> int {
    spec_numbers(start_items, inputs).len() + intermediates + outputs
}

/// Whether the number of the element that a step makes is one of its
/// kind: a given element is none of those given at the start.
pub open spec fn spec_in_range(
    edge: Edge,
    inputs: u64,
    intermediates: u64,
    outputs: u64,
    start_items: u64,
) -> bool {
    match edge.3 {
        Status::INPUT => start_items < edge.2 <= inputs,
        Status::INTERMEDIATE => 1 <= edge.2 <= intermediates,
        Status::OUTPUT => 1 <= edge.2 <= outputs,
    }
}

/// Whether `edges` is a construction of the elements of a game: its first
/// steps give the elements of the start, every later step makes an element
/// that has to be made from two elements of earlier steps, and every such
/// element is made.
pub open spec fn spec_construction(
    edges: Seq<Edge>,
    inputs: u64,
    intermediates: u64,
    outputs: u64,
    start_items: u64,
) -> bool {
    &&& edges.len() == start_items + spec_to_place(inputs, intermediates, outputs, start_items)
    &&& forall|k: int|
        0 <= k < start_items ==> #[trigger] edges[k] == (0usize, 0usize, (k + 1) as u64, Status::INPUT)
    &&& forall|k: int|
        start_items <= k < edges.len() ==> (#[trigger] edges[k]).0 < k && edges[k].1 < k
            && spec_in_range(edges[k], inputs, intermediates, outputs, start_items)
    &&& spec_made_once(edges)
}

/// The element that a step makes.
pub open spec fn spec_product(edge: Edge) -> Element {
    (edge.2, edge.3)
}

/// Whether no element is made by two steps.
pub open spec fn spec_made_once(edges: Seq<Edge>) -> bool {
    forall|a: int, b: int|
        0 <= a < b < edges.len() ==> spec_product(#[trigger] edges[a]) != spec_product(
            #[trigger] edges[b],
        )
}

/// Whether `x` was taken out of `before`, which left `after`.
pub open spec fn spec_taken(before: Seq<u64>, after: Seq<u64>, x: u64) -> bool {
    exists|i: int| 0 <= i < before.len() && #[trigger] before[i] == x && after == before.remove(i)
}

/// What is left of a list without repetitions, after one of its numbers was
/// taken out, has no repetitions and not that number, and nothing that the
/// list did not have.
pub proof fn lemma_taken(before: Seq<u64>, after: Seq<u64>, x: u64)
    requires
        spec_taken(before, after, x),
        before.no_duplicates(),
    ensures
        after.no_duplicates(),
        !after.contains(x),
        before.contains(x),
        forall|y: u64| after.contains(y) ==> before.contains(y),
{
}

/// The numbers from `from + 1` to `to` have no repetitions.
pub proof fn lemma_numbers_distinct(from: u64, to: u64)
    ensures
        spec_numbers(from, to).no_duplicates(),
        forall|i: int|
            0 <= i < spec_numbers(from, to).len() ==> from < (#[trigger] spec_numbers(from, to)[i])
                <= to,
{
}

/// Whether every step refers to steps of `edges`.
pub open spec fn spec_edges_closed(edges: Seq<Edge>) -> bool {
    forall|k: int|
        0 <= k < edges.len() ==> (#[trigger] edges[k]).0 < edges.len() && edges[k].1 < edges.len()
}

/// What a construction under way holds: the two words of the generator,
/// how many numbers were drawn, which pairs of steps were chosen, which
/// elements of each kind are still to make, and how many given elements and
/// goals were made.
pub struct BuilderView {
    pub seed_x: u64,
    pub seed_y: u64,
    pub draws: u64,
    pub used: Set<(usize, usize)>,
    pub inputs: Seq<u64>,
    pub intermediates: Seq<u64>,
    pub outputs: Seq<u64>,
    pub inputs_placed: u64,
    pub outputs_placed: u64,
}

/// The number after `x`, which is 0 after the largest.
pub open spec fn spec_next_count(x: u64) -> u64 {
    if x == u64::MAX {
        0
    } else {
        (x + 1) as u64
    }
}

impl BuilderView {
    /// The construction before anything is drawn.
    pub open spec fn initial(seed: u64, inputs: u64, intermediates: u64, outputs: u64, start_items: u64) -> BuilderView {
        BuilderView {
            seed_x: seed,
            seed_y: seed << 1,
            draws: 0,
            used: Set::empty(),
            inputs: spec_numbers(start_items, inputs),
            intermediates: spec_numbers(0, intermediates),
            outputs: spec_numbers(0, outputs),
            inputs_placed: 0,
            outputs_placed: 0,
        }
    }

    /// Whether the elements still to make are of their kinds, each once.
    pub open spec fn wf(self, inputs: u64, intermediates: u64, outputs: u64, start_items: u64) -> bool {
        &&& forall|i: int|
            0 <= i < self.inputs.len() ==> start_items < (#[trigger] self.inputs[i]) <= inputs
        &&& forall|i: int|
            0 <= i < self.intermediates.len() ==> 1 <= (#[trigger] self.intermediates[i])
                <= intermediates
        &&& forall|i: int| 0 <= i < self.outputs.len() ==> 1 <= (#[trigger] self.outputs[i]) <= outputs
        &&& self.inputs.no_duplicates()
        &&& self.intermediates.no_duplicates()
        &&& self.outputs.no_duplicates()
    }

    /// The elements of `kind` that are still to make.
    pub open spec fn list(self, kind: Status) -> Seq<u64> {
        match kind {
            Status::INPUT => self.inputs,
            Status::INTERMEDIATE => self.intermediates,
            Status::OUTPUT => self.outputs,
        }
    }

    /// Whether the element that `edge` makes is none of those still to
    /// make.
    pub open spec fn made(self, edge: Edge) -> bool {
        !self.list(edge.3).contains(edge.2)
    }

    /// Whether the same elements are still to make as in `other`.
    pub open spec fn same_left(self, other: BuilderView) -> bool {
        self.inputs == other.inputs && self.intermediates == other.intermediates && self.outputs
            == other.outputs
    }

    /// How many elements are still to make.
    pub open spec fn remaining(self) -> nat {
        self.inputs.len() + self.intermediates.len() + self.outputs.len()
    }

    /// The next number of the generator and the construction after it was
    /// drawn; `None` where the limit of draws is reached.
    pub open spec fn draw(self) -> Option<(u64, BuilderView)> {
        if self.draws >= DRAW_LIMIT {
            None
        } else {
            let out = spec_next_output(self.seed_x, self.seed_y);
            Some(
                (
                    out,
                    BuilderView {
                        seed_x: self.seed_y,
                        seed_y: ((out + self.seed_y) % 0x1_0000_0000_0000_0000) as u64,
                        draws: (self.draws + 1) as u64,
                        ..self
                    },
                ),
            )
        }
    }

    /// Whether a given element may be made next: more goals than given
    /// elements were made so far, and one is left.
    pub open spec fn input_open(self) -> bool {
        self.outputs_placed > self.inputs_placed && self.inputs.len() > 0
    }

    /// Whether nothing can be made next, whatever is drawn.
    pub open spec fn stuck(self) -> bool {
        !self.input_open() && self.intermediates.len() == 0 && self.outputs.len() == 0
    }

    /// Draws until the number drawn names a kind of which an element can be
    /// made: 0 a given element, 1 an intermediate, 2 a goal, each after
    /// division by 3.
    pub open spec fn kind_loop(self, input_open: bool) -> Option<(Status, BuilderView)>
        decreases DRAW_LIMIT - self.draws,
    {
        match self.draw() {
            None => None,
            Some((r, next)) => {
                let typ = r % 3;
                if typ == 0 && input_open {
                    Some(
                        (
                            Status::INPUT,
                            BuilderView {
                                inputs_placed: spec_next_count(next.inputs_placed),
                                ..next
                            },
                        ),
                    )
                } else if typ == 1 && self.intermediates.len() > 0 {
                    Some((Status::INTERMEDIATE, next))
                } else if typ == 2 && self.outputs.len() > 0 {
                    Some(
                        (
                            Status::OUTPUT,
                            BuilderView {
                                outputs_placed: spec_next_count(next.outputs_placed),
                                ..next
                            },
                        ),
                    )
                } else {
                    next.kind_loop(input_open)
                }
            },
        }
    }

    /// The kind of the next element to make; `None` where nothing can be
    /// made or the draws run out.
    pub open spec fn choose_kind(self) -> Option<(Status, BuilderView)> {
        if self.stuck() {
            None
        } else {
            self.kind_loop(self.input_open())
        }
    }

    /// Draws two of the `previous_items` earlier steps until the two were
    /// not chosen together before, and marks them as chosen, in both
    /// orders.
    pub open spec fn choose_pair(self, previous_items: usize) -> Option<
        ((usize, usize), BuilderView),
    >
        decreases DRAW_LIMIT - self.draws,
    {
        match self.draw() {
            None => None,
            Some((r1, b1)) => match b1.draw() {
                None => None,
                Some((r2, b2)) => {
                    let first = (r1 % (previous_items as u64)) as usize;
                    let second = (r2 % (previous_items as u64)) as usize;
                    if !b2.used.contains((first, second)) {
                        Some(
                            (
                                (first, second),
                                BuilderView {
                                    used: b2.used.insert((first, second)).insert((second, first)),
                                    ..b2
                                },
                            ),
                        )
                    } else {
                        b2.choose_pair(previous_items)
                    }
                },
            },
        }
    }

    /// The construction without the element at `index` among those of
    /// `kind` that are still to make.
    pub open spec fn without(self, kind: Status, index: int) -> BuilderView {
        match kind {
            Status::INPUT => BuilderView { inputs: self.inputs.remove(index), ..self },
            Status::INTERMEDIATE => BuilderView {
                intermediates: self.intermediates.remove(index),
                ..self
            },
            Status::OUTPUT => BuilderView { outputs: self.outputs.remove(index), ..self },
        }
    }

    /// Takes the element of `kind` that the next draw names among those
    /// still to make.
    pub open spec fn take(self, kind: Status) -> Option<(u64, BuilderView)> {
        match self.draw() {
            None => None,
            Some((r, next)) => {
                let index = (r % (next.list(kind).len() as u64)) as int;
                Some((next.list(kind)[index], next.without(kind, index)))
            },
        }
    }

    /// Makes one element: chooses its kind, the two steps it is made from,
    /// and which element of the kind it is.
    pub open spec fn place(self, previous_items: usize) -> Option<(Edge, BuilderView)> {
        match self.choose_kind() {
            None => None,
            Some((kind, b1)) => match b1.choose_pair(previous_items) {
                None => None,
                Some((pair, b2)) => match b2.take(kind) {
                    None => None,
                    Some((output, b3)) => Some(((pair.0, pair.1, output, kind), b3)),
                },
            },
        }
    }

    /// Makes `count` elements from the `previous_items` earlier steps.
    pub open spec fn layer(self, previous_items: usize, count: nat) -> Option<
        (Seq<Edge>, BuilderView),
    >
        decreases count,
    {
        if count == 0 {
            Some((Seq::empty(), self))
        } else {
            match self.layer(previous_items, (count - 1) as nat) {
                None => None,
                Some((edges, b)) => match b.place(previous_items) {
                    None => None,
                    Some((edge, next)) => Some((edges.push(edge), next)),
                },
            }
        }
    }

    /// How many elements the next layer has, after `previous_items` steps:
    /// at least one, fewer than are left unless one is left, and at most
    /// half of the square of `previous_items` less one; within that, as the
    /// draw says.
    pub open spec fn layer_size(self, previous_items: usize) -> Option<(u64, BuilderView)> {
        let pairs = previous_items * previous_items / 2 - 1;
        let most = if pairs < self.remaining() - 1 {
            pairs
        } else {
            self.remaining() - 1
        };
        if most > u64::MAX {
            None
        } else if most == 0 {
            Some((1, self))
        } else {
            match self.draw() {
                None => None,
                Some((r, next)) => Some(((r % (most as u64) + 1) as u64, next)),
            }
        }
    }

    /// Makes layer after layer on top of `edges` until nothing is left to
    /// make.
    pub open spec fn grow(self, edges: Seq<Edge>) -> Option<Seq<Edge>>
        decreases self.remaining(),
    {
        if self.remaining() <= 0 {
            Some(edges)
        } else {
            match self.layer_size(edges.len() as usize) {
                None => None,
                Some((size, b1)) => match b1.layer(edges.len() as usize, size as nat) {
                    None => None,
                    Some((layer, b2)) => if b2.remaining() < self.remaining() {
                        b2.grow(edges + layer)
                    } else {
                        None
                    },
                },
            }
        }
    }
}

/// The steps that give the elements of the start.
pub open spec fn spec_start_edges(start_items: u64) -> Seq<Edge> {
    Seq::new(start_items as nat, |k: int| (0usize, 0usize, (k + 1) as u64, Status::INPUT))
}

/// The construction for the given numbers of elements and the seed:
/// `None` where fewer than two elements are given at the start, where at
/// some point nothing that is left can be made, or where the draws reach
/// their limit.
pub open spec fn spec_create_edges(
    inputs: u64,
    outputs: u64,
    seed: u64,
    intermediates: u64,
    start_items: u64,
) -> Option<Seq<Edge>> {
    if start_items < 2 {
        None
    } else {
        BuilderView::initial(seed, inputs, intermediates, outputs, start_items).grow(
            spec_start_edges(start_items),
        )
    }
}

/// The state of a construction under way.
struct Builder {
    rng: RNG,
    draws: u64,
    used: HashSet<(usize, usize)>,
    inputs_to_place: Vec<u64>,
    intermediates_to_place: Vec<u64>,
    outputs_to_place: Vec<u64>,
    inputs_placed: u64,
    outputs_placed: u64,
}

impl View for Builder {
    type V = BuilderView;

    closed spec fn view(&self) -> BuilderView {
        BuilderView {
            seed_x: self.rng.seed_x,
            seed_y: self.rng.seed_y,
            draws: self.draws,
            used: pair_set(self.used),
            inputs: self.inputs_to_place@,
            intermediates: self.intermediates_to_place@,
            outputs: self.outputs_to_place@,
            inputs_placed: self.inputs_placed,
            outputs_placed: self.outputs_placed,
        }
    }
}

fn next_count(x: u64) -> (next: u64)
    ensures
        next == spec_next_count(x),
{
    if x == u64::MAX {
        0
    } else {
        x + 1
    }
}

impl Builder {
    /// Draws a number, unless the limit is reached.
    fn draw(&mut self) -> (r: Option<u64>)
        ensures
            match r {
                Some(v) => old(self)@.draw() == Some((v, final(self)@)),
                None => old(self)@.draw() is None && final(self)@ == old(self)@,
            },
    {
        if self.draws >= DRAW_LIMIT {
            return None;
        }
        self.draws += 1;
        Some(self.rng.get_random())
    }

    /// Chooses the kind of the next element to make, as the draws say.
    fn choose_kind(&mut self) -> (kind: Option<Status>)
        ensures
            match kind {
                Some(k) => old(self)@.choose_kind() == Some((k, final(self)@)) && final(self)@.list(
                    k,
                ).len() > 0 && final(self)@.same_left(old(self)@),
                None => old(self)@.choose_kind() is None,
            },
    {
        let input_open = self.outputs_placed > self.inputs_placed && self.inputs_to_place.len()
            > 0;
        if !input_open && self.intermediates_to_place.len() == 0 && self.outputs_to_place.len()
            == 0 {
            return None;
        }
        loop
            invariant
                input_open == old(self)@.input_open(),
                !old(self)@.stuck(),
                self@.kind_loop(input_open) == old(self)@.kind_loop(input_open),
                self@.inputs == old(self)@.inputs,
                self@.intermediates == old(self)@.intermediates,
                self@.outputs == old(self)@.outputs,
                self@.inputs_placed == old(self)@.inputs_placed,
                self@.outputs_placed == old(self)@.outputs_placed,
            decreases DRAW_LIMIT - self.draws,
        {
            let typ = match self.draw() {
                Some(r) => r % 3,
                None => {
                    return None;
                },
            };
            if typ == 0 && input_open {
                self.inputs_placed = next_count(self.inputs_placed);
                return Some(Status::INPUT);
            } else if typ == 1 && self.intermediates_to_place.len() > 0 {
                return Some(Status::INTERMEDIATE);
            } else if typ == 2 && self.outputs_to_place.len() > 0 {
                self.outputs_placed = next_count(self.outputs_placed);
                return Some(Status::OUTPUT);
            }
        }
    }

    /// Chooses two earlier steps that were not chosen together before.
    fn choose_pair(&mut self, previous_items: usize) -> (pair: Option<(usize, usize)>)
        requires
            previous_items > 0,
        ensures
            match pair {
                Some(p) => old(self)@.choose_pair(previous_items) == Some((p, final(self)@))
                    && p.0 < previous_items && p.1 < previous_items && final(self)@.same_left(
                    old(self)@,
                ),
                None => old(self)@.choose_pair(previous_items) is None,
            },
    {
        loop
            invariant
                previous_items > 0,
                self@.choose_pair(previous_items) == old(self)@.choose_pair(previous_items),
                self@.inputs == old(self)@.inputs,
                self@.intermediates == old(self)@.intermediates,
                self@.outputs == old(self)@.outputs,
            decreases DRAW_LIMIT - self.draws,
        {
            let first = match self.draw() {
                Some(r) => (r % (previous_items as u64)) as usize,
                None => {
                    return None;
                },
            };
            let second = match self.draw() {
                Some(r) => (r % (previous_items as u64)) as usize,
                None => {
                    return None;
                },
            };
            if !pairs_contains(&self.used, (first, second)) {
                pairs_insert(&mut self.used, (first, second));
                pairs_insert(&mut self.used, (second, first));
                return Some((first, second));
            }
        }
    }

    /// Takes one of the elements of `kind` that are still to make, as the
    /// draw says.
    fn take(&mut self, kind: Status, Ghost(limits): Ghost<(u64, u64, u64, u64)>) -> (output:
        Option<u64>)
        requires
            old(self)@.wf(limits.0, limits.1, limits.2, limits.3),
            old(self)@.list(kind).len() > 0,
        ensures
            match output {
                Some(x) => old(self)@.take(kind) == Some((x, final(self)@)) && final(self)@.wf(
                    limits.0,
                    limits.1,
                    limits.2,
                    limits.3,
                ) && final(self)@.remaining() == old(self)@.remaining() - 1 && spec_in_range(
                    (0, 0, x, kind),
                    limits.0,
                    limits.1,
                    limits.2,
                    limits.3,
                ) && spec_taken(old(self)@.list(kind), final(self)@.list(kind), x) && forall|
                    other: Status,
                |
                    other != kind ==> final(self)@.list(other) == old(self)@.list(other),
                None => old(self)@.take(kind) is None,
            },
    {
        let r = self.draw()?;
        let ghost before = self@.list(kind);
        let taken = match kind {
            Status::INPUT => {
                let index = (r % (self.inputs_to_place.len() as u64)) as usize;
                self.inputs_to_place.remove(index)
            },
            Status::INTERMEDIATE => {
                let index = (r % (self.intermediates_to_place.len() as u64)) as usize;
                self.intermediates_to_place.remove(index)
            },
            Status::OUTPUT => {
                let index = (r % (self.outputs_to_place.len() as u64)) as usize;
                self.outputs_to_place.remove(index)
            },
        };
        proof {
            lemma_taken(before, self@.list(kind), taken);
        }
        Some(taken)
    }
}

/// Where making one more element fails, making more fails too.
proof fn lemma_layer_fails(b: BuilderView, previous_items: usize, made: nat, count: nat)
    requires
        made < count,
        b.layer(previous_items, made) matches Some(sofar) && sofar.1.place(previous_items) is None,
    ensures
        b.layer(previous_items, count) is None,
    decreases count,
{
    if count > made + 1 {
        lemma_layer_fails(b, previous_items, made, (count - 1) as nat);
    }
}

/// Makes a construction of the elements of a game: which two elements
/// each element that is not given at the start is made from, as the
/// numbers drawn from `seed` say. Gives up where fewer than two elements
/// are given at the start, where no element that is left can be made, or
/// where the draws reach their limit.
pub fn create_edges(
    inputs: u64,
    outputs: u64,
    seed: u64,
    intermediates: u64,
    start_items: u64,
) -> (r: Option<Vec<Edge>>)
    ensures
        match r {
            Some(edges) => spec_create_edges(inputs, outputs, seed, intermediates, start_items)
                == Some(edges@),
            None => spec_create_edges(inputs, outputs, seed, intermediates, start_items) is None,
        },
        r matches Some(edges) ==> spec_construction(
            edges@,
            inputs,
            intermediates,
            outputs,
            start_items,
        ),
{
    if start_items < 2 {
        return None;
    }
    let ghost limits = (inputs, intermediates, outputs, start_items);
    let ghost goal = spec_create_edges(inputs, outputs, seed, intermediates, start_items);
    let mut dag_edges: Vec<Edge> = Vec::new();
    let mut i: u64 = 0;
    while i < start_items
        invariant
            i <= start_items,
            dag_edges.len() == i,
            forall|k: int|
                0 <= k < i ==> #[trigger] dag_edges[k] == (
                    0usize,
                    0usize,
                    (k + 1) as u64,
                    Status::INPUT,
                ),
        decreases start_items - i,
    {
        i += 1;
        dag_edges.push((0, 0, i, Status::INPUT));
    }
    let mut builder = Builder {
        rng: RNG::init(seed),
        draws: 0,
        used: pairs_new(),
        inputs_to_place: number_list(start_items, inputs),
        intermediates_to_place: number_list(0, intermediates),
        outputs_to_place: number_list(0, outputs),
        inputs_placed: 0,
        outputs_placed: 0,
    };
    proof {
        lemma_numbers_distinct(start_items, inputs);
        lemma_numbers_distinct(0, intermediates);
        lemma_numbers_distinct(0, outputs);
        assert(dag_edges@ =~= spec_start_edges(start_items));
    }
    loop
        invariant
            start_items >= 2,
            limits == (inputs, intermediates, outputs, start_items),
            goal == spec_create_edges(inputs, outputs, seed, intermediates, start_items),
            builder@.grow(dag_edges@) == goal,
            builder@.wf(inputs, intermediates, outputs, start_items),
            spec_made_once(dag_edges@),
            forall|k: int| 0 <= k < dag_edges.len() ==> builder@.made(#[trigger] dag_edges[k]),
            dag_edges.len() + builder@.remaining() == start_items + spec_to_place(
                inputs,
                intermediates,
                outputs,
                start_items,
            ),
            dag_edges.len() >= start_items,
            forall|k: int|
                0 <= k < start_items ==> #[trigger] dag_edges[k] == (
                    0usize,
                    0usize,
                    (k + 1) as u64,
                    Status::INPUT,
                ),
            forall|k: int|
                start_items <= k < dag_edges.len() ==> (#[trigger] dag_edges[k]).0 < k
                    && dag_edges[k].1 < k && spec_in_range(
                    dag_edges[k],
                    inputs,
                    intermediates,
                    outputs,
                    start_items,
                ),
        decreases builder@.remaining(),
    {
        let to_place_length: u128 = builder.inputs_to_place.len() as u128
            + builder.intermediates_to_place.len() as u128 + builder.outputs_to_place.len() as u128;
        if to_place_length == 0 {
            return Some(dag_edges);
        }
        let previous_items = dag_edges.len();
        let ghost at_loop = builder@;
        assert(previous_items as u128 * previous_items as u128 <= u128::MAX && previous_items as u128
            * previous_items as u128 >= 4) by (nonlinear_arith)
            requires
                2 <= previous_items <= usize::MAX,
        ;
        let pairs: u128 = (previous_items as u128) * (previous_items as u128) / 2 - 1;
        let most: u128 = if pairs < to_place_length - 1 {
            pairs
        } else {
            to_place_length - 1
        };
        if most > u64::MAX as u128 {
            return None;
        }
        let max_layer_size = most as u64;
        let new_layer_size: u64 = if max_layer_size == 0 {
            1
        } else {
            match builder.draw() {
                Some(r) => r % max_layer_size + 1,
                None => {
                    return None;
                },
            }
        };
        let ghost at_start = builder@;
        let mut new_layer: Vec<Edge> = Vec::new();
        let mut placed: u64 = 0;
        while placed < new_layer_size
            invariant
                limits == (inputs, intermediates, outputs, start_items),
                builder@.wf(inputs, intermediates, outputs, start_items),
                previous_items == dag_edges.len(),
                previous_items >= 2,
                placed <= new_layer_size <= at_start.remaining(),
                new_layer.len() == placed,
                builder@.remaining() + placed == at_start.remaining(),
                at_start.layer(previous_items, placed as nat) == Some((new_layer@, builder@)),
                at_loop.layer_size(previous_items) == Some((new_layer_size, at_start)),
                at_loop.remaining() > 0,
                at_loop.grow(dag_edges@) == goal,
                goal == spec_create_edges(inputs, outputs, seed, intermediates, start_items),
                spec_made_once(dag_edges@ + new_layer@),
                forall|k: int| 0 <= k < dag_edges.len() ==> builder@.made(#[trigger] dag_edges[k]),
                forall|k: int| 0 <= k < new_layer.len() ==> builder@.made(#[trigger] new_layer[k]),
                forall|k: int|
                    0 <= k < new_layer.len() ==> (#[trigger] new_layer[k]).0 < previous_items
                        && new_layer[k].1 < previous_items && spec_in_range(
                        new_layer[k],
                        inputs,
                        intermediates,
                        outputs,
                        start_items,
                    ),
            decreases new_layer_size - placed,
        {
            let ghost here = builder@;
            proof {
                if here.place(previous_items) is None {
                    lemma_layer_fails(
                        at_start,
                        previous_items,
                        placed as nat,
                        new_layer_size as nat,
                    );
                }
            }
            let kind = builder.choose_kind()?;
            let pair = builder.choose_pair(previous_items)?;
            let ghost before = builder@;
            let ghost layer = new_layer@;
            let output = builder.take(kind, Ghost(limits))?;
            new_layer.push((pair.0, pair.1, output, kind));
            proof {
                lemma_taken(before.list(kind), builder@.list(kind), output);
                let edge = (pair.0, pair.1, output, kind);
                let all = dag_edges@ + new_layer@;
                assert(all =~= (dag_edges@ + layer).push(edge));
            }
            placed += 1;
        }
        dag_edges.append(&mut new_layer);
    }
}

/// One recipe: the two elements that are put together, and the elements
/// that come of it.
#[derive(Debug)]
pub struct Recipe {
    pub first: Element,
    pub second: Element,
    pub products: Vec<Element>,
}

impl Recipe {
    pub open spec fn spec_key(self) -> (Element, Element) {
        (self.first, self.second)
    }
}

/// The element that stands in a recipe for "nothing": the elements of the
/// start are made from two of it.
pub open spec fn spec_nothing() -> Element {
    (0, Status::INPUT)
}

/// The two elements that the step `k` of `edges` puts together: those of
/// the two steps it refers to, the earlier step first.
pub open spec fn spec_edge_key(edges: Seq<Edge>, k: int) -> (Element, Element) {
    let edge = edges[k];
    if edge.3 == Status::INPUT {
        (spec_nothing(), spec_nothing())
    } else {
        let lo = if edge.0 < edge.1 {
            edge.0
        } else {
            edge.1
        };
        let hi = if edge.0 < edge.1 {
            edge.1
        } else {
            edge.0
        };
        ((edges[lo as int].2, edges[lo as int].3), (edges[hi as int].2, edges[hi as int].3))
    }
}

/// What comes of putting together the elements of `key`, by the first `n`
/// steps of `edges`, in the order of the steps.
pub open spec fn spec_products(edges: Seq<Edge>, n: int, key: (Element, Element)) -> Seq<Element>
    decreases n,
{
    if n <= 0 {
        seq![]
    } else {
        let before = spec_products(edges, n - 1, key);
        if spec_edge_key(edges, n - 1) == key {
            before.push((edges[n - 1].2, edges[n - 1].3))
        } else {
            before
        }
    }
}

/// Whether `recipes` is the table of the first `n` steps of `edges`: one
/// recipe for each pair of elements of which something comes, with all
/// that comes of it.
pub open spec fn spec_table_of(recipes: Seq<Recipe>, edges: Seq<Edge>, n: int) -> bool {
    &&& forall|a: int, b: int|
        0 <= a < b < recipes.len() ==> (#[trigger] recipes[a]).spec_key() != (
        #[trigger] recipes[b]).spec_key()
    &&& forall|a: int|
        0 <= a < recipes.len() ==> (#[trigger] recipes[a]).products@.len() > 0
            && recipes[a].products@ == spec_products(edges, n, recipes[a].spec_key())
    &&& forall|key: (Element, Element)|
        spec_products(edges, n, key).len() > 0 ==> exists|a: int|
            0 <= a < recipes.len() && (#[trigger] recipes[a]).spec_key() == key
}

fn same_element(a: Element, b: Element) -> (same: bool)
    ensures
        same == (a == b),
{
    a.0 == b.0 && a.1 == b.1
}

/// The place of the first recipe for `key` in `recipes`.
pub open spec fn spec_recipe_place(recipes: Seq<Recipe>, key: (Element, Element)) -> Option<int>
    decreases recipes.len(),
{
    if recipes.len() == 0 {
        None
    } else {
        match spec_recipe_place(recipes.drop_last(), key) {
            Some(a) => Some(a),
            None => if recipes.last().spec_key() == key {
                Some(recipes.len() - 1)
            } else {
                None
            },
        }
    }
}

/// The place of the first recipe for `key` in `recipes`.
pub fn find_recipe(recipes: &Vec<Recipe>, key: (Element, Element)) -> (place: Option<usize>)
    ensures
        match place {
            Some(a) => spec_recipe_place(recipes@, key) == Some(a as int) && a < recipes.len()
                && recipes[a as int].spec_key() == key,
            None => spec_recipe_place(recipes@, key) is None && forall|a: int|
                0 <= a < recipes.len() ==> (#[trigger] recipes[a]).spec_key() != key,
        },
{
    let mut a: usize = 0;
    while a < recipes.len()
        invariant
            a <= recipes.len(),
            spec_recipe_place(recipes@.take(a as int), key) is None,
            forall|b: int| 0 <= b < a ==> (#[trigger] recipes[b]).spec_key() != key,
        decreases recipes.len() - a,
    {
        assert(recipes@.take(a + 1).drop_last() =~= recipes@.take(a as int));
        if same_element(recipes[a].first, key.0) && same_element(recipes[a].second, key.1) {
            proof {
                lemma_recipe_place_keeps(recipes@, key, a + 1);
            }
            return Some(a);
        }
        a += 1;
    }
    assert(recipes@.take(recipes.len() as int) =~= recipes@);
    None
}

/// A place found among the first recipes is the place among all.
proof fn lemma_recipe_place_keeps(recipes: Seq<Recipe>, key: (Element, Element), n: int)
    requires
        0 <= n <= recipes.len(),
        spec_recipe_place(recipes.take(n), key) is Some,
    ensures
        spec_recipe_place(recipes, key) == spec_recipe_place(recipes.take(n), key),
    decreases recipes.len() - n,
{
    if n == recipes.len() {
        assert(recipes.take(n) =~= recipes);
    } else {
        assert(recipes.take(n + 1).drop_last() =~= recipes.take(n));
        lemma_recipe_place_keeps(recipes, key, n + 1);
    }
}

/// The table of recipes of a construction.
pub fn build_recipes(edges: &Vec<Edge>) -> (recipes: Vec<Recipe>)
    requires
        spec_edges_closed(edges@),
    ensures
        spec_table_of(recipes@, edges@, edges.len() as int),
{
    let mut recipes: Vec<Recipe> = Vec::new();
    let mut k: usize = 0;
    while k < edges.len()
        invariant
            k <= edges.len(),
            spec_edges_closed(edges@),
            spec_table_of(recipes@, edges@, k as int),
        decreases edges.len() - k,
    {
        let edge = edges[k];
        let product: Element = (edge.2, edge.3);
        let key: (Element, Element) = match edge.3 {
            Status::INPUT => ((0, Status::INPUT), (0, Status::INPUT)),
            _ => {
                let (lo, hi) = if edge.0 < edge.1 {
                    (edge.0, edge.1)
                } else {
                    (edge.1, edge.0)
                };
                ((edges[lo].2, edges[lo].3), (edges[hi].2, edges[hi].3))
            },
        };
        let ghost old_recipes = recipes@;
        match find_recipe(&recipes, key) {
            Some(a) => {
                let mut recipe = recipes.remove(a);
                recipe.products.push(product);
                recipes.insert(a, recipe);
                proof {
                    let next = k + 1;
                    assert forall|key2: (Element, Element)| #[trigger]
                        spec_products(edges@, next, key2).len() > 0 implies exists|b: int|
                        0 <= b < recipes.len() && (#[trigger] recipes[b]).spec_key() == key2 by {
                        if key2 == key {
                            assert(recipes[a as int].spec_key() == key2);
                        } else {
                            assert(spec_products(edges@, next, key2) == spec_products(
                                edges@,
                                k as int,
                                key2,
                            ));
                            let b = choose|b: int|
                                0 <= b < old_recipes.len() && (#[trigger] old_recipes[b]).spec_key()
                                    == key2;
                            assert(recipes[b].spec_key() == key2);
                        }
                    }
                }
            },
            None => {
                let mut products: Vec<Element> = Vec::new();
                products.push(product);
                recipes.push(Recipe { first: key.0, second: key.1, products });
                proof {
                    let last = recipes.len() - 1;
                    assert(spec_products(edges@, k as int, key).len() == 0) by {
                        if spec_products(edges@, k as int, key).len() > 0 {
                            let b = choose|b: int|
                                0 <= b < old_recipes.len() && (#[trigger] old_recipes[b]).spec_key()
                                    == key;
                        }
                    }
                    assert(recipes[last].products@ =~= spec_products(edges@, k + 1, key));
                    let next = k + 1;
                    assert forall|key2: (Element, Element)| #[trigger]
                        spec_products(edges@, next, key2).len() > 0 implies exists|b: int|
                        0 <= b < recipes.len() && (#[trigger] recipes[b]).spec_key() == key2 by {
                        if key2 != key {
                            assert(spec_products(edges@, next, key2) == spec_products(
                                edges@,
                                k as int,
                                key2,
                            ));
                            let b = choose|b: int|
                                0 <= b < old_recipes.len() && (#[trigger] old_recipes[b]).spec_key()
                                    == key2;
                            assert(recipes[b].spec_key() == key2);
                        }
                    }
                }
            },
        }
        k += 1;
    }
    recipes
}

/// A construction refers to its own steps only.
pub proof fn lemma_construction_closed(
    edges: Seq<Edge>,
    inputs: u64,
    intermediates: u64,
    outputs: u64,
    start_items: u64,
)
    requires
        spec_construction(edges, inputs, intermediates, outputs, start_items),
        start_items >= 1,
    ensures
        spec_edges_closed(edges),
{
}

/// Makes the recipes of a game and lists its elements: the table of the
/// construction that [`create_edges`] makes, and all elements kind by
/// kind. Gives up where [`create_edges`] does.
pub fn create_graph(
    inputs: u64,
    outputs: u64,
    seed: u64,
    intermediates: u64,
    start_items: u64,
) -> (r: Option<(Vec<Recipe>, Vec<Element>)>)
    ensures
        match r {
            Some(graph) => spec_create_edges(inputs, outputs, seed, intermediates, start_items)
                matches Some(edges) && spec_table_of(graph.0@, edges, edges.len() as int)
                && spec_construction(edges, inputs, intermediates, outputs, start_items)
                && graph.1@ == spec_all_elements(inputs, intermediates, outputs),
            None => spec_create_edges(inputs, outputs, seed, intermediates, start_items) is None,
        },
{
    let edges = create_edges(inputs, outputs, seed, intermediates, start_items)?;
    proof {
        lemma_construction_closed(edges@, inputs, intermediates, outputs, start_items);
    }
    let recipes = build_recipes(&edges);
    Some((recipes, all_elements(inputs, intermediates, outputs)))
}

/// With fewer than two elements at the start there is no construction.
pub proof fn lemma_needs_two_at_start(
    inputs: u64,
    outputs: u64,
    seed: u64,
    intermediates: u64,
    start_items: u64,
)
    requires
        start_items < 2,
    ensures
        spec_create_edges(inputs, outputs, seed, intermediates, start_items) is None,
{
}

} // verus!
