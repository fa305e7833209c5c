use book_manager::routes::{routes, Handler, Method, Route, BOOKS_PATH, HEALTH_PATH};

#[test]
fn the_table_binds_the_probe_and_the_listing_under_get() {
    assert_eq!(
        routes(),
        vec![
            Route { method: Method::Get, path: "/health", handler: Handler::Health },
            Route { method: Method::Get, path: "/books", handler: Handler::Books },
        ]
    );
}

#[test]
fn the_two_paths_are_health_and_books() {
    assert_eq!(HEALTH_PATH, "/health");
    assert_eq!(BOOKS_PATH, "/books");
}

#[test]
fn no_pair_of_method_and_path_is_bound_twice() {
    let table = routes();
    assert_eq!(table.len(), 2);
    assert_ne!((table[0].method, table[0].path), (table[1].method, table[1].path));
    assert_ne!(table[0].handler, table[1].handler);
}
