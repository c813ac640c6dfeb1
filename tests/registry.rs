use doxa_selector::route::{derive_categories, RegistryError, Route, RouteRegistry};

fn route(category: u32, name: &str) -> Route<u32> {
    Route {
        category,
        name: String::from(name),
        description: String::new(),
        callback: category * 100,
    }
}

#[test]
fn categories_sorted_without_duplicates() {
    let cats = derive_categories(&vec![3, 1, 3, 2, 1]);
    assert_eq!(cats, vec![1, 2, 3]);
}

#[test]
fn categories_same_on_repeated_derivation() {
    let keys = vec![9, 4, 4, 7, 0, 9];
    assert_eq!(derive_categories(&keys), derive_categories(&keys));
    assert_eq!(derive_categories(&keys), vec![0, 4, 7, 9]);
}

#[test]
fn categories_of_empty_keys() {
    assert_eq!(derive_categories(&vec![]), Vec::<u32>::new());
}

#[test]
fn empty_route_list_refused() {
    let r = RouteRegistry::<u32>::new(Vec::new());
    assert_eq!(r.err(), Some(RegistryError::NoRoutes));
}

#[test]
fn registry_groups_routes_by_category() {
    let reg = RouteRegistry::new(vec![
        route(2, "a"),
        route(1, "b"),
        route(2, "c"),
        route(5, "d"),
    ])
    .unwrap();
    assert_eq!(reg.route_count(), 4);
    assert_eq!(reg.category_count(), 3);
    assert_eq!(reg.categories(), &vec![1, 2, 5]);
    assert_eq!(reg.routes_in(0), &vec![1]);
    assert_eq!(reg.routes_in(1), &vec![0, 2]);
    assert_eq!(reg.routes_in(2), &vec![3]);
    assert_eq!(reg.route(2).name, "c");
    assert_eq!(*reg.callback(3), 500);
}

#[test]
fn resolve_and_locate_round_trip() {
    let reg = RouteRegistry::new(vec![
        route(10, "a0"),
        route(10, "a1"),
        route(30, "c0"),
        route(20, "b0"),
        route(30, "c1"),
        route(30, "c2"),
    ])
    .unwrap();
    for c in 0..reg.category_count() {
        for l in 0..reg.routes_in(c).len() {
            let g = reg.resolve(c, l).unwrap();
            assert_eq!(reg.locate(g), Some((c, l)));
            assert_eq!(reg.route(g).category, reg.categories()[c]);
        }
    }
    for g in 0..reg.route_count() {
        let (c, l) = reg.locate(g).unwrap();
        assert_eq!(reg.resolve(c, l), Some(g));
    }
    assert_eq!(reg.resolve(2, 1), Some(4));
    assert_eq!(reg.locate(5), Some((2, 2)));
}

#[test]
fn resolve_and_locate_out_of_range() {
    let reg = RouteRegistry::new(vec![route(1, "a"), route(2, "b")]).unwrap();
    assert_eq!(reg.resolve(2, 0), None);
    assert_eq!(reg.resolve(0, 1), None);
    assert_eq!(reg.locate(2), None);
}

#[test]
fn route_clone_keeps_fields() {
    let r = route(7, "seven");
    let c = r.clone();
    assert_eq!(c.category, 7);
    assert_eq!(c.name, "seven");
    assert_eq!(c.callback, 700);
}
