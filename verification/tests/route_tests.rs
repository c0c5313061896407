use inventory_http::route::{find_handler, get_route, get_route_arg, opt_route, try_get_route,
    Handler, Route, RouteTable};

#[test]
fn get_route_gives_method_and_path() {
    assert_eq!(get_route("GET /tech HTTP/1.1\r\nHost: x\r\n"), ("GET", "/tech"));
    assert_eq!(get_route("POST   /add-tech\r\n"), ("POST", "/add-tech"));
    assert_eq!(get_route("  DELETE\t/x y z"), ("DELETE", "/x"));
    assert_eq!(get_route("GET /edit-tech/4?a=b HTTP/1.1"), ("GET", "/edit-tech/4?a=b"));
}

#[test]
fn try_get_route_needs_two_words_on_the_first_line() {
    assert_eq!(try_get_route(""), None);
    assert_eq!(try_get_route("\r\n"), None);
    assert_eq!(try_get_route("GET"), None);
    assert_eq!(try_get_route("GET \r\n/tech HTTP/1.1"), None);
    assert_eq!(try_get_route("\nGET /tech"), None);
    assert_eq!(try_get_route("GET /"), Some(("GET", "/")));
    assert_eq!(try_get_route("a b\nc d"), Some(("a", "b")));
}

#[test]
fn try_get_route_agrees_with_the_standard_functions() {
    let heads = [
        "GET / HTTP/1.1\r\n", "POST /add-tech HTTP/1.1\r\nContent-Length: 3\r\n", "x", "",
        " \u{a0} A \u{2003}B C", "A\u{b}B", "one\r\ntwo three", "\n\n", "É ü",
    ];
    for head in heads {
        let expected = head.lines().next().and_then(|line| {
            let mut words = line.split_whitespace();
            let method = words.next()?;
            let route = words.next()?;
            Some((method, route))
        });
        assert_eq!(try_get_route(head), expected, "head {:?}", head);
    }
}

#[test]
fn opt_route_is_a_prefix_test() {
    assert!(opt_route("/edit-tech/42", "/edit-tech/"));
    assert!(opt_route("/edit-tech/", "/edit-tech/"));
    assert!(!opt_route("/edit-tech", "/edit-tech/"));
    assert!(!opt_route("/x/edit-tech/42", "/edit-tech/"));
    assert!(opt_route("anything", ""));
}

#[test]
fn route_arg_ignores_the_query() {
    assert_eq!(get_route_arg("/edit-tech/42?foo=1", 2), Some(42));
    assert_eq!(get_route_arg("/edit-tech/42", 2), Some(42));
    assert_eq!(get_route_arg("/edit-tech/42?/7/8", 2), Some(42));
    assert_eq!(get_route_arg("/edit-tech/42?", 2), Some(42));
}

#[test]
fn route_arg_counts_segments_from_the_empty_first_one() {
    assert_eq!(get_route_arg("/7/8/9", 0), None);
    assert_eq!(get_route_arg("/7/8/9", 1), Some(7));
    assert_eq!(get_route_arg("/7/8/9", 3), Some(9));
    assert_eq!(get_route_arg("/7/8/9", 4), None);
    assert_eq!(get_route_arg("5", 0), Some(5));
    assert_eq!(get_route_arg("", 0), None);
    assert_eq!(get_route_arg("/a//3", 3), Some(3));
    assert_eq!(get_route_arg("/a//3", 2), None);
}

#[test]
fn route_arg_that_is_no_integer_is_none() {
    assert_eq!(get_route_arg("/edit-tech/abc", 2), None);
    assert_eq!(get_route_arg("/edit-tech/", 2), None);
    assert_eq!(get_route_arg("/edit-tech", 2), None);
    assert_eq!(get_route_arg("/edit-tech/4 2", 2), None);
    assert_eq!(get_route_arg("/edit-tech/99999999999", 2), None);
    assert_eq!(get_route_arg("/edit-tech/-5", 2), Some(-5));
    assert_eq!(get_route_arg("/edit-tech/+5", 2), Some(5));
    assert_eq!(get_route_arg("/edit-tech/42/more", 2), Some(42));
}

#[test]
fn route_arg_agrees_with_the_standard_functions() {
    let routes = ["/edit-tech/42?foo=1", "/a/b/c", "", "/", "//", "/x/-3?", "?/1/2", "/1/2?3/4", "/é/5"];
    for route in routes {
        for count in 0..5usize {
            let expected = route
                .split('?')
                .next()
                .and_then(|path| path.split('/').nth(count))
                .and_then(|part| part.parse::<i32>().ok());
            assert_eq!(get_route_arg(route, count), expected, "route {:?} count {}", route, count);
        }
    }
}

#[test]
fn standard_table_exact_routes() {
    assert_eq!(find_handler("/"), Some(Handler::Welcome));
    assert_eq!(find_handler("/tech"), Some(Handler::TechTable));
    assert_eq!(find_handler("/add-tech"), Some(Handler::TechAdd));
    assert_eq!(find_handler("/unit"), Some(Handler::UnitTable));
    assert_eq!(find_handler("/add-unit"), Some(Handler::UnitAdd));
    assert_eq!(find_handler("/employee"), Some(Handler::EmployeeTable));
    assert_eq!(find_handler("/add-employee"), Some(Handler::EmployeeAdd));
    assert_eq!(find_handler("/transfer"), Some(Handler::TransferTable));
    assert_eq!(find_handler("/add-transfer"), Some(Handler::TransferAdd));
    assert_eq!(find_handler("/unit-tech"), Some(Handler::UnitTech));
    assert_eq!(find_handler("/employee-tech"), Some(Handler::EmployeeTech));
}

#[test]
fn standard_table_prefix_routes() {
    assert_eq!(find_handler("/edit-tech/1"), Some(Handler::TechEdit));
    assert_eq!(find_handler("/delete-tech/1"), Some(Handler::TechDelete));
    assert_eq!(find_handler("/edit-unit/1"), Some(Handler::UnitEdit));
    assert_eq!(find_handler("/delete-unit/1"), Some(Handler::UnitDelete));
    assert_eq!(find_handler("/edit-employee/1"), Some(Handler::EmployeeEdit));
    assert_eq!(find_handler("/delete-employee/1"), Some(Handler::EmployeeDelete));
    assert_eq!(find_handler("/edit-transfer/1"), Some(Handler::TransferEdit));
    assert_eq!(find_handler("/view-unit-tech/1"), Some(Handler::ViewUnitTech));
    assert_eq!(find_handler("/view-employee-tech/1"), Some(Handler::ViewEmployeeTech));
    assert_eq!(find_handler("/edit-tech/"), Some(Handler::TechEdit));
    assert_eq!(find_handler("/edit-tech/abc?x=1"), Some(Handler::TechEdit));
}

#[test]
fn standard_table_knows_no_other_path() {
    assert_eq!(find_handler("/does-not-exist"), None);
    assert_eq!(find_handler(""), None);
    assert_eq!(find_handler("/tech/"), None);
    assert_eq!(find_handler("/tech?page=2"), None);
    assert_eq!(find_handler("/edit-tech"), None);
    assert_eq!(find_handler("/Tech"), None);
}

#[test]
fn exact_route_comes_before_prefix_route() {
    let table = RouteTable {
        exact: vec![
            Route { pattern: "/edit-tech/new".to_string(), handler: Handler::TechAdd },
            Route { pattern: "/edit-tech/new".to_string(), handler: Handler::Welcome },
        ],
        prefix: vec![
            Route { pattern: "/edit-tech/".to_string(), handler: Handler::TechEdit },
            Route { pattern: "/edit-".to_string(), handler: Handler::UnitEdit },
            Route { pattern: "/".to_string(), handler: Handler::Welcome },
        ],
    };
    assert_eq!(table.find("/edit-tech/new"), Some(Handler::TechAdd));
    assert_eq!(table.find("/edit-tech/new2"), Some(Handler::TechEdit));
    assert_eq!(table.find("/edit-unit/3"), Some(Handler::UnitEdit));
    assert_eq!(table.find("/other"), Some(Handler::Welcome));
    assert_eq!(table.find("other"), None);
}
