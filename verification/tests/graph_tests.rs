use elementipelago::game::{get_element_display_name, get_element_icon_idx, icon_index, RecipeGraph};
use elementipelago::graph::{
    all_elements, build_recipes, create_edges, create_graph, find_recipe, number_list, Edge,
    Element, Recipe, Status, DRAW_LIMIT, RNG,
};

#[test]
fn test_rng_values() {
    let mut rng = RNG::init(29992);
    let mut values: Vec<u64> = Vec::new();
    for i in 0..100 {
        let value = rng.get_random();
        println!("value {} -> {}", i, value);
        values.push(value);
    }
    assert_eq!(
        values[..5],
        [
            251593086328,
            342458941848,
            2110500793385715367,
            6368655067323955526,
            9428954548297413779
        ]
    );
    assert_eq!(values[99], 15159212980095477506);
}

#[test]
fn rng_init_doubles_the_seed_for_its_second_word() {
    let rng = RNG::init(29992);
    assert_eq!(rng.seed_x, 29992);
    assert_eq!(rng.seed_y, 59984);
    let wrapped = RNG::init(u64::MAX);
    assert_eq!(wrapped.seed_y, u64::MAX - 1);
}

#[test]
fn rng_step_moves_the_second_word_to_the_first() {
    let mut rng = RNG::init(7);
    let out = rng.get_random();
    assert_eq!(rng.seed_x, 14);
    assert_eq!(rng.seed_y, out.wrapping_add(14));
}

fn expected_edges() -> Vec<Edge> {
    vec![
        (0, 0, 1, Status::INPUT),
        (0, 0, 2, Status::INPUT),
        (0, 0, 3, Status::INPUT),
        (0, 0, 4, Status::INPUT),
        (0, 3, 7, Status::INTERMEDIATE),
        (0, 0, 4, Status::INTERMEDIATE),
        (2, 1, 9, Status::INTERMEDIATE),
        (2, 3, 1, Status::OUTPUT),
        (3, 1, 8, Status::INPUT),
        (1, 1, 9, Status::OUTPUT),
        (2, 5, 3, Status::OUTPUT),
        (6, 2, 8, Status::INTERMEDIATE),
        (9, 1, 5, Status::OUTPUT),
        (2, 9, 10, Status::OUTPUT),
        (7, 9, 10, Status::INPUT),
        (5, 1, 10, Status::INTERMEDIATE),
        (4, 4, 5, Status::INPUT),
        (9, 3, 8, Status::OUTPUT),
        (2, 2, 7, Status::INPUT),
        (0, 9, 6, Status::INPUT),
        (7, 8, 2, Status::OUTPUT),
        (9, 5, 9, Status::INPUT),
        (7, 5, 6, Status::OUTPUT),
        (4, 5, 2, Status::INTERMEDIATE),
        (8, 2, 4, Status::OUTPUT),
        (4, 9, 7, Status::OUTPUT),
        (0, 6, 5, Status::INTERMEDIATE),
        (7, 0, 1, Status::INTERMEDIATE),
        (10, 22, 6, Status::INTERMEDIATE),
        (12, 5, 3, Status::INTERMEDIATE),
    ]
}

fn expected_recipes() -> Vec<(Element, Element, Vec<Element>)> {
    vec![
        ((0, Status::INPUT), (0, Status::INPUT), vec![(1, Status::INPUT), (2, Status::INPUT), (3, Status::INPUT), (4, Status::INPUT), (8, Status::INPUT), (10, Status::INPUT), (5, Status::INPUT), (7, Status::INPUT), (6, Status::INPUT), (9, Status::INPUT)]),
        ((1, Status::INPUT), (4, Status::INPUT), vec![(7, Status::INTERMEDIATE)]),
        ((1, Status::INPUT), (1, Status::INPUT), vec![(4, Status::INTERMEDIATE)]),
        ((2, Status::INPUT), (3, Status::INPUT), vec![(9, Status::INTERMEDIATE)]),
        ((3, Status::INPUT), (4, Status::INPUT), vec![(1, Status::OUTPUT)]),
        ((2, Status::INPUT), (2, Status::INPUT), vec![(9, Status::OUTPUT)]),
        ((3, Status::INPUT), (4, Status::INTERMEDIATE), vec![(3, Status::OUTPUT)]),
        ((3, Status::INPUT), (9, Status::INTERMEDIATE), vec![(8, Status::INTERMEDIATE)]),
        ((2, Status::INPUT), (9, Status::OUTPUT), vec![(5, Status::OUTPUT)]),
        ((3, Status::INPUT), (9, Status::OUTPUT), vec![(10, Status::OUTPUT)]),
        ((2, Status::INPUT), (4, Status::INTERMEDIATE), vec![(10, Status::INTERMEDIATE)]),
        ((4, Status::INPUT), (9, Status::OUTPUT), vec![(8, Status::OUTPUT)]),
        ((1, Status::OUTPUT), (8, Status::INPUT), vec![(2, Status::OUTPUT)]),
        ((4, Status::INTERMEDIATE), (1, Status::OUTPUT), vec![(6, Status::OUTPUT)]),
        ((7, Status::INTERMEDIATE), (4, Status::INTERMEDIATE), vec![(2, Status::INTERMEDIATE)]),
        ((3, Status::INPUT), (8, Status::INPUT), vec![(4, Status::OUTPUT)]),
        ((7, Status::INTERMEDIATE), (9, Status::OUTPUT), vec![(7, Status::OUTPUT)]),
        ((1, Status::INPUT), (9, Status::INTERMEDIATE), vec![(5, Status::INTERMEDIATE)]),
        ((1, Status::INPUT), (1, Status::OUTPUT), vec![(1, Status::INTERMEDIATE)]),
        ((3, Status::OUTPUT), (6, Status::OUTPUT), vec![(6, Status::INTERMEDIATE)]),
        ((4, Status::INTERMEDIATE), (5, Status::OUTPUT), vec![(3, Status::INTERMEDIATE)]),
    ]
}

fn plain(recipes: &[Recipe]) -> Vec<(Element, Element, Vec<Element>)> {
    recipes.iter().map(|r| (r.first, r.second, r.products.clone())).collect()
}

#[test]
fn test_graph() {
    let graph = create_graph(10, 10, 2827108, 10, 4).expect("a graph");
    println!("graph {:?}", graph);
    assert_eq!(plain(&graph.0), expected_recipes());
    assert_eq!(graph.1, all_elements(10, 10, 10));
    assert_eq!(graph.1.len(), 30);
}

#[test]
fn edges_follow_the_draws_of_the_seed() {
    assert_eq!(create_edges(10, 10, 2827108, 10, 4).expect("edges"), expected_edges());
}


#[test]
fn small_graph_has_exact_edges_and_recipes() {
    let edges = create_edges(5, 3, 1, 2, 2).expect("edges");
    assert_eq!(
        edges,
        vec![
            (0, 0, 1, Status::INPUT),
            (0, 0, 2, Status::INPUT),
            (1, 1, 2, Status::INTERMEDIATE),
            (0, 1, 3, Status::OUTPUT),
            (0, 2, 5, Status::INPUT),
            (3, 2, 1, Status::OUTPUT),
            (2, 4, 2, Status::OUTPUT),
            (4, 4, 1, Status::INTERMEDIATE),
            (0, 6, 3, Status::INPUT),
            (2, 8, 4, Status::INPUT),
        ]
    );
    assert_eq!(
        plain(&build_recipes(&edges)),
        vec![
            ((0, Status::INPUT), (0, Status::INPUT), vec![(1, Status::INPUT), (2, Status::INPUT), (5, Status::INPUT), (3, Status::INPUT), (4, Status::INPUT)]),
            ((2, Status::INPUT), (2, Status::INPUT), vec![(2, Status::INTERMEDIATE)]),
            ((1, Status::INPUT), (2, Status::INPUT), vec![(3, Status::OUTPUT)]),
            ((2, Status::INTERMEDIATE), (3, Status::OUTPUT), vec![(1, Status::OUTPUT)]),
            ((2, Status::INTERMEDIATE), (5, Status::INPUT), vec![(2, Status::OUTPUT)]),
            ((5, Status::INPUT), (5, Status::INPUT), vec![(1, Status::INTERMEDIATE)]),
        ]
    );
}

#[test]
fn larger_graph_ends_as_the_draws_say() {
    let edges = create_edges(20, 15, 123456789, 17, 5).expect("edges");
    assert_eq!(edges.len(), 52);
    assert_eq!(edges[51], (49, 4, 10, Status::INTERMEDIATE));
    assert_eq!(edges[5], (3, 4, 3, Status::INTERMEDIATE));
    assert_eq!(build_recipes(&edges).len(), 33);
}

fn check_construction(inputs: u64, outputs: u64, seed: u64, intermediates: u64, start_items: u64) {
    let edges = create_edges(inputs, outputs, seed, intermediates, start_items).expect("edges");
    let to_make = inputs.saturating_sub(start_items) + intermediates + outputs;
    assert_eq!(edges.len() as u64, start_items + to_make);
    for (k, edge) in edges.iter().enumerate() {
        if (k as u64) < start_items {
            assert_eq!(*edge, (0, 0, k as u64 + 1, Status::INPUT));
        } else {
            assert!(edge.0 < k && edge.1 < k);
            match edge.3 {
                Status::INPUT => assert!(start_items < edge.2 && edge.2 <= inputs),
                Status::INTERMEDIATE => assert!(1 <= edge.2 && edge.2 <= intermediates),
                Status::OUTPUT => assert!(1 <= edge.2 && edge.2 <= outputs),
            }
        }
    }
    let mut made: Vec<Element> = edges.iter().map(|e| (e.2, e.3)).collect();
    made.sort_by_key(|e| (e.1 as u8, e.0));
    made.dedup();
    assert_eq!(made.len(), edges.len());
    let recipes = build_recipes(&edges);
    let products: usize = recipes.iter().map(|r| r.products.len()).sum();
    assert_eq!(products, edges.len());
    for (a, first) in recipes.iter().enumerate() {
        assert!(!first.products.is_empty());
        for second in &recipes[a + 1..] {
            assert!((first.first, first.second) != (second.first, second.second));
        }
    }
}

#[test]
fn constructions_make_every_element_once_from_earlier_ones() {
    check_construction(10, 10, 2827108, 10, 4);
    check_construction(5, 3, 1, 2, 2);
    check_construction(3, 3, 99, 3, 3);
    check_construction(20, 15, 123456789, 17, 5);
    check_construction(3, 2, 7, 1, 5);
    check_construction(2, 0, 5, 0, 2);
}

#[test]
fn graph_wants_two_elements_at_the_start() {
    assert!(create_graph(10, 10, 1, 10, 0).is_none());
    assert!(create_graph(10, 10, 1, 10, 1).is_none());
    assert!(create_edges(10, 10, 1, 10, 1).is_none());
    assert!(create_graph(10, 10, 1, 10, 2).is_some());
}

#[test]
fn graph_gives_up_where_nothing_can_be_made() {
    assert!(create_graph(8, 0, 42, 6, 2).is_none());
    assert!(create_edges(3, 0, 1, 0, 2).is_none());
}

#[test]
fn graph_gives_up_at_the_draw_limit() {
    assert_eq!(DRAW_LIMIT, 67108864);
    assert!(create_graph(2, 1, 0, 0, 2).is_none());
}

#[test]
fn graph_with_nothing_to_make_has_the_start_only() {
    let graph = create_graph(2, 0, 5, 0, 2).expect("a graph");
    assert_eq!(
        plain(&graph.0),
        vec![(
            (0, Status::INPUT),
            (0, Status::INPUT),
            vec![(1, Status::INPUT), (2, Status::INPUT)]
        )]
    );
    assert_eq!(graph.1, vec![(1, Status::INPUT), (2, Status::INPUT)]);
}

#[test]
fn elements_are_listed_kind_by_kind() {
    assert_eq!(
        all_elements(2, 1, 3),
        vec![
            (1, Status::INPUT),
            (2, Status::INPUT),
            (1, Status::INTERMEDIATE),
            (1, Status::OUTPUT),
            (2, Status::OUTPUT),
            (3, Status::OUTPUT)
        ]
    );
    assert!(all_elements(0, 0, 0).is_empty());
    assert_eq!(number_list(2, 5), vec![3, 4, 5]);
    assert!(number_list(5, 5).is_empty());
    assert!(number_list(6, 5).is_empty());
    assert_eq!(number_list(u64::MAX - 1, u64::MAX), vec![u64::MAX]);
}

fn table() -> RecipeGraph {
    let fire = (1, Status::INPUT);
    let water = (2, Status::INPUT);
    let steam = (1, Status::INTERMEDIATE);
    RecipeGraph(Some((
        vec![
            Recipe { first: fire, second: water, products: vec![steam, (1, Status::OUTPUT)] },
            Recipe { first: steam, second: steam, products: vec![(2, Status::OUTPUT)] },
            Recipe { first: water, second: fire, products: vec![(3, Status::OUTPUT)] },
        ],
        vec![fire, water, steam],
    )))
}

#[test]
fn recipe_is_found_in_either_order() {
    let graph = table();
    let fire = (1, Status::INPUT);
    let water = (2, Status::INPUT);
    let steam = (1, Status::INTERMEDIATE);
    assert_eq!(
        graph.get_recipe(fire, water),
        Some(vec![steam, (1, Status::OUTPUT)])
    );
    assert_eq!(graph.get_recipe(water, fire), Some(vec![(3, Status::OUTPUT)]));
    assert_eq!(graph.get_recipe(steam, steam), Some(vec![(2, Status::OUTPUT)]));
    assert_eq!(graph.get_recipe(steam, fire), None);
    assert_eq!(graph.get_recipe((1, Status::OUTPUT), water), None);
    assert_eq!(RecipeGraph(None).get_recipe(fire, water), None);
    let only_reverse = RecipeGraph(Some((
        vec![Recipe { first: water, second: fire, products: vec![steam] }],
        vec![],
    )));
    assert_eq!(only_reverse.get_recipe(fire, water), Some(vec![steam]));
}

#[test]
fn find_recipe_gives_the_first_place() {
    let graph = table();
    let recipes = &graph.0.as_ref().expect("a table").0;
    assert_eq!(find_recipe(recipes, ((1, Status::INPUT), (2, Status::INPUT))), Some(0));
    assert_eq!(find_recipe(recipes, ((2, Status::INPUT), (1, Status::INPUT))), Some(2));
    assert_eq!(find_recipe(recipes, ((2, Status::INPUT), (2, Status::INPUT))), None);
    assert_eq!(find_recipe(&vec![], ((2, Status::INPUT), (2, Status::INPUT))), None);
}

#[test]
fn display_name_says_kind_and_number() {
    assert_eq!(get_element_display_name((7, Status::INPUT)), "Element #7");
    assert_eq!(get_element_display_name((12, Status::INTERMEDIATE)), "Intermediate #12");
    assert_eq!(get_element_display_name((0, Status::OUTPUT)), "Compound #0");
    assert_eq!(
        get_element_display_name((u64::MAX, Status::OUTPUT)),
        "Compound #18446744073709551615"
    );
}

#[test]
fn icon_is_one_of_twenty_five() {
    assert_eq!(icon_index(0), 0);
    assert_eq!(icon_index(24), 24);
    assert_eq!(icon_index(25), 0);
    assert_eq!(icon_index(u64::MAX), 15);
    let mut seen = std::collections::BTreeSet::new();
    for n in 0..200u64 {
        for kind in [Status::INPUT, Status::INTERMEDIATE, Status::OUTPUT] {
            let index = get_element_icon_idx((n, kind));
            assert!(index < 25);
            assert_eq!(index, get_element_icon_idx((n, kind)));
            seen.insert(index);
        }
    }
    assert!(seen.len() > 1);
}
