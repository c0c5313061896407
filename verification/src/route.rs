//! Routing: the request line, the route table with its exact and prefix
//! routes, and the argument that a prefix route carries in its path.

use vstd::prelude::*;
use vstd::string::StrSliceExecFns;
use crate::number::{parse_i32, read_i32};
use crate::text::{after_first_token, chars_of, find_char, first_token, index_of,
    lemma_index_of_is, skip_spaces, skip_token, split, starts_with, str_eq};

verus! {

/// The first line of a request head: what stands before the first line
/// feed.
pub open spec fn first_line(request: Seq<char>) -> Seq<char> {
    request.take(index_of(request, '\n'))
}

/// The method of a request: the first word of its first line.
pub open spec fn request_method(request: Seq<char>) -> Seq<char> {
    first_token(first_line(request))
}

/// The path of a request: the second word of its first line.
pub open spec fn request_path(request: Seq<char>) -> Seq<char> {
    first_token(after_first_token(first_line(request)))
}

/// Whether the first line of a request holds a method and a path.
pub open spec fn has_request_line(request: Seq<char>) -> bool {
    request_method(request).len() > 0 && request_path(request).len() > 0
}

/// The method and the path of a request head, or `None` where its first
/// line holds fewer than two words.
pub fn try_get_route<'a>(request: &'a str) -> (r: Option<(&'a str, &'a str)>)
    ensures
        r is Some <==> has_request_line(request@),
        r matches Some(pair) ==> pair.0@ == request_method(request@) && pair.1@ == request_path(
            request@,
        ),
{
    let v = chars_of(request);
    let end = find_char(&v, 0, v.len(), '\n');
    let a = skip_spaces(&v, 0, end);
    let b = skip_token(&v, a, end);
    let c = skip_spaces(&v, b, end);
    let d = skip_token(&v, c, end);
    proof {
        let line = first_line(request@);
        assert(v@.subrange(0, v.len() as int) == v@);
        assert(line == v@.subrange(0, end as int));
        assert(line.skip(a as int) == v@.subrange(a as int, end as int));
        assert(request_method(request@) == v@.subrange(a as int, b as int));
        let rest = after_first_token(line);
        assert(rest == v@.subrange(b as int, end as int));
        assert(rest.skip(c - b) == v@.subrange(c as int, end as int));
        assert(request_path(request@) == v@.subrange(c as int, d as int));
    }
    if a == b || c == d {
        None
    } else {
        Some((request.substring_char(a, b), request.substring_char(c, d)))
    }
}

/// The method and the path of a request head.
pub fn get_route<'a>(request: &'a str) -> (r: (&'a str, &'a str))
    requires
        has_request_line(request@),
    ensures
        r.0@ == request_method(request@),
        r.1@ == request_path(request@),
{
    try_get_route(request).unwrap()
}

/// Whether `route` begins with `pattern`.
pub fn opt_route(route: &str, pattern: &str) -> (r: bool)
    ensures
        r == pattern@.is_prefix_of(route@),
{
    let v = chars_of(route);
    let p = chars_of(pattern);
    starts_with(&v, &p)
}

/// A route without its query: what stands before the first `?`.
pub open spec fn without_query(route: Seq<char>) -> Seq<char> {
    route.take(index_of(route, '?'))
}

/// The integer in the segment `count` of a route, where `/` separates the
/// segments and the query does not count: `None` where the path has no
/// such segment or the segment is no `i32`.
pub open spec fn route_arg(route: Seq<char>, count: int) -> Option<i32> {
    let segments = split(without_query(route), '/');
    if 0 <= count < segments.len() {
        match parse_i32(segments[count]) {
            Ok(n) => Some(n),
            Err(_) => None,
        }
    } else {
        None
    }
}

/// The integer in the segment `count` of a route.
pub fn get_route_arg(route: &str, count: usize) -> (arg: Option<i32>)
    ensures
        arg == route_arg(route@, count as int),
{
    let v = chars_of(route);
    let end = find_char(&v, 0, v.len(), '?');
    let ghost path = without_query(route@);
    let mut pos: usize = 0;
    let mut k: usize = 0;
    let ghost mut done: Seq<Seq<char>> = Seq::empty();
    proof {
        assert(v@.subrange(0, v.len() as int) == v@);
        assert(path == v@.subrange(0, end as int));
        assert(path.skip(0) == path);
    }
    loop
        invariant
            v@ == route@,
            path == without_query(route@),
            path == v@.subrange(0, end as int),
            pos <= end <= v.len(),
            k <= count,
            k == done.len(),
            done + split(path.skip(pos as int), '/') == split(path, '/'),
        decreases end - pos,
    {
        let ghost rest = path.skip(pos as int);
        let slash = find_char(&v, pos, end, '/');
        proof {
            assert(rest == v@.subrange(pos as int, end as int));
            let pieces = split(rest, '/');
            assert(rest.take(slash - pos) == v@.subrange(pos as int, slash as int));
            assert(rest.take(rest.len() as int) == rest);
            assert(pieces.len() >= 1 && pieces[0] == v@.subrange(pos as int, slash as int));
            assert(slash == end ==> pieces == seq![rest]);
            assert((done + pieces)[k as int] == pieces[0]);
            assert((done + pieces).len() == k + pieces.len());
        }
        if k == count {
            return match read_i32(&v, pos, slash) {
                Ok(n) => Some(n),
                Err(_) => None,
            };
        }
        if slash == end {
            return None;
        }
        proof {
            let piece = rest.take(slash - pos);
            assert(rest.skip(slash - pos + 1) == path.skip(slash + 1));
            assert(done.push(piece) + split(path.skip(slash + 1), '/') == done + split(rest, '/'));
            done = done.push(piece);
        }
        pos = slash + 1;
        k += 1;
    }
}

/// The query of a route does not touch its path argument.
pub proof fn lemma_route_arg_ignores_query(path: Seq<char>, query: Seq<char>, count: int)
    requires
        !path.contains('?'),
    ensures
        route_arg(path + seq!['?'] + query, count) == route_arg(path, count),
{
    let route = path + seq!['?'] + query;
    assert forall|j: int| 0 <= j < path.len() implies route[j] != '?' by {
        assert(route[j] == path[j]);
        assert(path.contains(path[j]));
    }
    assert(route[path.len() as int] == '?');
    lemma_index_of_is(route, '?', path.len() as int);
    assert(without_query(route) == path);
    assert forall|j: int| 0 <= j < path.len() implies path[j] != '?' by {
        assert(path.contains(path[j]));
    }
    lemma_index_of_is(path, '?', path.len() as int);
    assert(without_query(path) == path);
}

/// What answers a request: one handler for each page of the service.
#[derive(Clone, Copy, Debug, PartialEq, Eq, Structural)]
pub enum Handler {
    Welcome,
    TechTable,
    TechAdd,
    UnitTable,
    UnitAdd,
    EmployeeTable,
    EmployeeAdd,
    TransferTable,
    TransferAdd,
    UnitTech,
    EmployeeTech,
    TechEdit,
    TechDelete,
    UnitEdit,
    UnitDelete,
    EmployeeEdit,
    EmployeeDelete,
    TransferEdit,
    ViewUnitTech,
    ViewEmployeeTech,
}

/// One entry of a route table: a pattern and the handler bound to it.
#[derive(Debug, PartialEq)]
pub struct Route {
    pub pattern: String,
    pub handler: Handler,
}

/// A route table: exact routes, which match a path equal to their
/// pattern, and prefix routes, which match a path that begins with it.
#[derive(Debug, PartialEq)]
pub struct RouteTable {
    pub exact: Vec<Route>,
    pub prefix: Vec<Route>,
}

/// The entries of a list of routes: each pattern with its handler.
pub open spec fn entries_of(routes: Seq<Route>) -> Seq<(Seq<char>, Handler)> {
    Seq::new(routes.len(), |i: int| (routes[i].pattern@, routes[i].handler))
}

/// The handler of the first entry whose pattern equals `path`.
pub open spec fn first_exact(entries: Seq<(Seq<char>, Handler)>, path: Seq<char>) -> Option<
    Handler,
>
    decreases entries.len(),
{
    if entries.len() == 0 {
        None
    } else if entries[0].0 == path {
        Some(entries[0].1)
    } else {
        first_exact(entries.drop_first(), path)
    }
}

/// The handler of the first entry whose pattern `path` begins with.
pub open spec fn first_prefix(entries: Seq<(Seq<char>, Handler)>, path: Seq<char>) -> Option<
    Handler,
>
    decreases entries.len(),
{
    if entries.len() == 0 {
        None
    } else if entries[0].0.is_prefix_of(path) {
        Some(entries[0].1)
    } else {
        first_prefix(entries.drop_first(), path)
    }
}

/// The handler that exact and prefix routes give a path: that of the
/// first exact route that matches, else of the first prefix route that
/// matches, else none.
pub open spec fn lookup(
    exact: Seq<(Seq<char>, Handler)>,
    prefix: Seq<(Seq<char>, Handler)>,
    path: Seq<char>,
) -> Option<Handler> {
    match first_exact(exact, path) {
        Some(handler) => Some(handler),
        None => first_prefix(prefix, path),
    }
}

/// The exact routes of the service, in the order in which they are tried.
pub open spec fn standard_exact() -> Seq<(Seq<char>, Handler)> {
    seq![
        ("/"@, Handler::Welcome),
        ("/tech"@, Handler::TechTable),
        ("/add-tech"@, Handler::TechAdd),
        ("/unit"@, Handler::UnitTable),
        ("/add-unit"@, Handler::UnitAdd),
        ("/employee"@, Handler::EmployeeTable),
        ("/add-employee"@, Handler::EmployeeAdd),
        ("/transfer"@, Handler::TransferTable),
        ("/add-transfer"@, Handler::TransferAdd),
        ("/unit-tech"@, Handler::UnitTech),
        ("/employee-tech"@, Handler::EmployeeTech),
    ]
}

/// The prefix routes of the service, in the order in which they are
/// tried.
pub open spec fn standard_prefix() -> Seq<(Seq<char>, Handler)> {
    seq![
        ("/edit-tech/"@, Handler::TechEdit),
        ("/delete-tech/"@, Handler::TechDelete),
        ("/edit-unit/"@, Handler::UnitEdit),
        ("/delete-unit/"@, Handler::UnitDelete),
        ("/edit-employee/"@, Handler::EmployeeEdit),
        ("/delete-employee/"@, Handler::EmployeeDelete),
        ("/edit-transfer/"@, Handler::TransferEdit),
        ("/view-unit-tech/"@, Handler::ViewUnitTech),
        ("/view-employee-tech/"@, Handler::ViewEmployeeTech),
    ]
}

/// The handler that the service gives a path.
pub open spec fn standard_route(path: Seq<char>) -> Option<Handler> {
    lookup(standard_exact(), standard_prefix(), path)
}

fn add_route(routes: &mut Vec<Route>, pattern: &str, handler: Handler)
    ensures
        entries_of(final(routes)@) == entries_of(old(routes)@).push((pattern@, handler)),
{
    routes.push(Route { pattern: pattern.to_owned(), handler });
    assert(entries_of(routes@) =~= entries_of(old(routes)@).push((pattern@, handler)));
}

impl RouteTable {
    /// The route table of the service.
    pub fn standard() -> (table: RouteTable)
        ensures
            entries_of(table.exact@) == standard_exact(),
            entries_of(table.prefix@) == standard_prefix(),
    {
        let mut exact: Vec<Route> = Vec::new();
        assert(entries_of(exact@) =~= Seq::empty());
        add_route(&mut exact, "/", Handler::Welcome);
        add_route(&mut exact, "/tech", Handler::TechTable);
        add_route(&mut exact, "/add-tech", Handler::TechAdd);
        add_route(&mut exact, "/unit", Handler::UnitTable);
        add_route(&mut exact, "/add-unit", Handler::UnitAdd);
        add_route(&mut exact, "/employee", Handler::EmployeeTable);
        add_route(&mut exact, "/add-employee", Handler::EmployeeAdd);
        add_route(&mut exact, "/transfer", Handler::TransferTable);
        add_route(&mut exact, "/add-transfer", Handler::TransferAdd);
        add_route(&mut exact, "/unit-tech", Handler::UnitTech);
        add_route(&mut exact, "/employee-tech", Handler::EmployeeTech);
        assert(entries_of(exact@) =~= standard_exact());
        let mut prefix: Vec<Route> = Vec::new();
        assert(entries_of(prefix@) =~= Seq::empty());
        add_route(&mut prefix, "/edit-tech/", Handler::TechEdit);
        add_route(&mut prefix, "/delete-tech/", Handler::TechDelete);
        add_route(&mut prefix, "/edit-unit/", Handler::UnitEdit);
        add_route(&mut prefix, "/delete-unit/", Handler::UnitDelete);
        add_route(&mut prefix, "/edit-employee/", Handler::EmployeeEdit);
        add_route(&mut prefix, "/delete-employee/", Handler::EmployeeDelete);
        add_route(&mut prefix, "/edit-transfer/", Handler::TransferEdit);
        add_route(&mut prefix, "/view-unit-tech/", Handler::ViewUnitTech);
        add_route(&mut prefix, "/view-employee-tech/", Handler::ViewEmployeeTech);
        assert(entries_of(prefix@) =~= standard_prefix());
        RouteTable { exact, prefix }
    }

    /// The handler for `path`: exact routes are tried first, in their
    /// order, then prefix routes, in theirs.
    pub fn find(&self, path: &str) -> (r: Option<Handler>)
        ensures
            r == lookup(entries_of(self.exact@), entries_of(self.prefix@), path@),
    {
        let ghost exact = entries_of(self.exact@);
        let ghost prefix = entries_of(self.prefix@);
        let mut i: usize = 0;
        assert(exact.skip(0) == exact);
        assert(prefix.skip(0) == prefix);
        while i < self.exact.len()
            invariant
                i <= self.exact.len(),
                exact == entries_of(self.exact@),
                first_exact(exact, path@) == first_exact(exact.skip(i as int), path@),
            decreases self.exact.len() - i,
        {
            let ghost rest = exact.skip(i as int);
            assert(rest[0] == exact[i as int]);
            if str_eq(self.exact[i].pattern.as_str(), path) {
                return Some(self.exact[i].handler);
            }
            assert(rest.drop_first() == exact.skip(i + 1));
            i += 1;
        }
        let v = chars_of(path);
        let mut j: usize = 0;
        while j < self.prefix.len()
            invariant
                v@ == path@,
                j <= self.prefix.len(),
                exact == entries_of(self.exact@),
                prefix == entries_of(self.prefix@),
                first_exact(exact, path@) is None,
                first_prefix(prefix, path@) == first_prefix(prefix.skip(j as int), path@),
            decreases self.prefix.len() - j,
        {
            let ghost rest = prefix.skip(j as int);
            assert(rest[0] == prefix[j as int]);
            let p = chars_of(self.prefix[j].pattern.as_str());
            if starts_with(&v, &p) {
                return Some(self.prefix[j].handler);
            }
            assert(rest.drop_first() == prefix.skip(j + 1));
            j += 1;
        }
        None
    }
}

/// The handler that the service gives a path.
pub fn find_handler(path: &str) -> (r: Option<Handler>)
    ensures
        r == standard_route(path@),
{
    RouteTable::standard().find(path)
}

/// An exact route that matches a path takes precedence over every prefix
/// route, whatever the prefix routes are.
pub proof fn lemma_exact_route_first(
    exact: Seq<(Seq<char>, Handler)>,
    prefix: Seq<(Seq<char>, Handler)>,
    path: Seq<char>,
)
    requires
        first_exact(exact, path) is Some,
    ensures
        lookup(exact, prefix, path) == first_exact(exact, path),
{
}

/// Among the exact routes the first that matches decides.
pub proof fn lemma_first_exact_is_first(
    entries: Seq<(Seq<char>, Handler)>,
    path: Seq<char>,
    i: int,
)
    requires
        0 <= i < entries.len(),
        entries[i].0 == path,
        forall|j: int| 0 <= j < i ==> entries[j].0 != path,
    ensures
        first_exact(entries, path) == Some(entries[i].1),
    decreases entries.len(),
{
    if i > 0 {
        let rest = entries.drop_first();
        assert(rest[i - 1] == entries[i]);
        assert forall|j: int| 0 <= j < i - 1 implies rest[j].0 != path by {
            assert(rest[j] == entries[j + 1]);
        }
        lemma_first_exact_is_first(rest, path, i - 1);
    }
}

/// Among the prefix routes the first that matches decides.
pub proof fn lemma_first_prefix_is_first(
    entries: Seq<(Seq<char>, Handler)>,
    path: Seq<char>,
    i: int,
)
    requires
        0 <= i < entries.len(),
        entries[i].0.is_prefix_of(path),
        forall|j: int| 0 <= j < i ==> !entries[j].0.is_prefix_of(path),
    ensures
        first_prefix(entries, path) == Some(entries[i].1),
    decreases entries.len(),
{
    if i > 0 {
        let rest = entries.drop_first();
        assert(rest[i - 1] == entries[i]);
        assert forall|j: int| 0 <= j < i - 1 implies !rest[j].0.is_prefix_of(path) by {
            assert(rest[j] == entries[j + 1]);
        }
        lemma_first_prefix_is_first(rest, path, i - 1);
    }
}

/// A prefix route that matches a path matches it with any query behind
/// it.
pub proof fn lemma_prefix_match_ignores_query(
    pattern: Seq<char>,
    path: Seq<char>,
    query: Seq<char>,
)
    requires
        pattern.is_prefix_of(path),
    ensures
        pattern.is_prefix_of(path + seq!['?'] + query),
{
    let route = path + seq!['?'] + query;
    assert(route.subrange(0, pattern.len() as int) =~= path.subrange(0, pattern.len() as int));
}

} // verus!
