use std::cell::Cell;
use std::rc::Rc;

use pet2d::AssetServer;

#[test]
fn loads_each_path_once_and_caches_it() {
    let loads = Rc::new(Cell::new(0));
    let mut server = AssetServer::<u32>::default();
    let counter = loads.clone();
    let first = server.entry("cat.png", |path| {
        assert_eq!(path, "cat.png");
        counter.set(counter.get() + 1);
        7
    });
    let second = server.entry("cat.png", |_| unreachable!("cache hit must not reload"));
    assert_eq!(first, 7);
    assert_eq!(second, 7);
    assert_eq!(loads.get(), 1);
}

#[test]
fn different_paths_load_separately() {
    let mut server = AssetServer::<u32>::default();
    assert_eq!(server.entry("a.png", |_| 1), 1);
    assert_eq!(server.entry("b.png", |_| 2), 2);
    assert_eq!(server.entry("a.png", |_| unreachable!()), 1);
}

#[test]
fn cached_values_are_clones_of_the_loaded_resource() {
    let mut server = AssetServer::<String>::default();
    let first = server.entry("x.png", |path| format!("loaded {path}"));
    let second = server.entry("x.png", |_| unreachable!());
    assert_eq!(first, "loaded x.png");
    assert_eq!(second, "loaded x.png");
}

#[test]
fn failed_loads_are_not_cached() {
    let mut server = AssetServer::<u32>::default();
    let first: Result<u32, &str> = server.try_entry("a.png", |_| Err("missing"));
    assert_eq!(first, Err("missing"));
    // the failure was not cached: the next call loads again
    let second: Result<u32, &str> = server.try_entry("a.png", |_| Ok(3));
    assert_eq!(second, Ok(3));
    // now cached: a failing loader is never called
    let third: Result<u32, &str> = server.try_entry("a.png", |_| unreachable!());
    assert_eq!(third, Ok(3));
    assert_eq!(server.entry("a.png", |_| unreachable!()), 3);
}
