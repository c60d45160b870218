//! The router: an ordered table of endpoints, and the choice of the one
//! that serves a request.
//!
//! The order of registration is the order of precedence. The first endpoint
//! whose path pattern matches the request is the one that answers, also
//! where a later one would match more closely, and also where it does not
//! accept the request's method. Register the narrower pattern first.

use vstd::prelude::*;
use vstd::utf8::{encode_utf8, is_char_boundary};
use crate::bytes::{text, STAR};
use crate::request::{HttpMethod, Request};
use crate::response::{default_response, Response, ResponseView, StatusCode};
use crate::http_utils::HttpProtocol;

verus! {

/// What serves the requests of an endpoint.
pub enum ApiType<F> {
    /// A file below the static root.
    Static,
    /// A handler: a function from the request to the response.
    Function(F),
}

/// One row of the routing table.
pub struct ApiEndPoint<F> {
    /// The methods that the endpoint accepts. Their order means nothing.
    pub method: Vec<HttpMethod>,
    /// The path pattern. A `*` in it ends the comparison: what stands
    /// before it has to be the beginning of the request's path.
    pub path: String,
    pub api_type: ApiType<F>,
}

/// The place of the first `*` of `pattern` at or after `from`, or the
/// length of `pattern` where there is none.
pub open spec fn wildcard_index(pattern: Seq<u8>, from: int) -> int
    decreases pattern.len() - from,
{
    if from >= pattern.len() {
        pattern.len() as int
    } else if pattern[from] == STAR {
        from
    } else {
        wildcard_index(pattern, from + 1)
    }
}

/// A pattern matches a path, byte for byte.
///
/// A pattern without `*` matches the path that is equal to it and no
/// other. A pattern with `*` matches every path that begins with what
/// stands before the first `*`, whatever follows; what stands behind the
/// `*` in the pattern is not read.
pub open spec fn pattern_matches(pattern: Seq<u8>, path: Seq<u8>) -> bool {
    let star = wildcard_index(pattern, 0);
    if star < pattern.len() {
        star <= path.len() && path.subrange(0, star) == pattern.subrange(0, star)
    } else {
        path == pattern
    }
}

/// The first `*` is a `*`, and no byte before it is one.
pub proof fn lemma_wildcard_index(pattern: Seq<u8>, from: int)
    requires
        0 <= from <= pattern.len(),
    ensures
        from <= wildcard_index(pattern, from) <= pattern.len(),
        wildcard_index(pattern, from) < pattern.len() ==> pattern[wildcard_index(pattern, from)]
            == STAR,
        forall|i: int| from <= i < wildcard_index(pattern, from) ==> pattern[i] != STAR,
    decreases pattern.len() - from,
{
    if from < pattern.len() && pattern[from] != STAR {
        lemma_wildcard_index(pattern, from + 1);
    }
}

/// A pattern without `*` matches itself and nothing else.
pub proof fn lemma_exact_pattern(pattern: Seq<u8>, path: Seq<u8>)
    requires
        !pattern.contains(STAR),
    ensures
        pattern_matches(pattern, path) <==> path == pattern,
{
    lemma_wildcard_index(pattern, 0);
}

/// A pattern that is `prefix`, then `*`, then anything, matches the paths
/// that begin with `prefix`, where `prefix` holds no `*` itself.
pub proof fn lemma_prefix_pattern(prefix: Seq<u8>, rest: Seq<u8>, path: Seq<u8>)
    requires
        !prefix.contains(STAR),
    ensures
        pattern_matches(prefix + seq![STAR] + rest, path) <==> prefix.is_prefix_of(path),
{
    let pattern = prefix + seq![STAR] + rest;
    lemma_wildcard_index(pattern, 0);
    let star = wildcard_index(pattern, 0);
    assert(pattern[prefix.len() as int] == STAR);
    assert(pattern.subrange(0, star) =~= prefix);
}

impl<F> ApiEndPoint<F> {
    /// The path pattern as bytes.
    pub open spec fn pattern(&self) -> Seq<u8> {
        encode_utf8(self.path@)
    }

    /// Tells whether the pattern of this endpoint matches the path `other`.
    pub fn path_matches(&self, other: &str) -> (r: bool)
        ensures
            r == pattern_matches(self.pattern(), text(other)),
    {
        let pattern = self.path.as_str().as_bytes();
        let path = other.as_bytes();
        let mut i: usize = 0;
        proof {
            lemma_wildcard_index(pattern@, 0);
        }
        loop
            invariant
                pattern@ == self.pattern(),
                path@ == text(other),
                i <= pattern@.len(),
                i <= path@.len(),
                forall|j: int| 0 <= j < i ==> pattern@[j] == path@[j],
                wildcard_index(pattern@, 0) == wildcard_index(pattern@, i as int),
                i <= wildcard_index(pattern@, 0) <= pattern@.len(),
            decreases pattern@.len() - i,
        {
            let ghost star = wildcard_index(pattern@, 0);
            if i == pattern.len() {
                assert(path@.len() == i ==> path@ =~= pattern@);
                return i == path.len();
            }
            if pattern[i] == STAR {
                assert(path@.subrange(0, i as int) =~= pattern@.subrange(0, i as int));
                return true;
            }
            proof {
                lemma_wildcard_index(pattern@, i as int + 1);
            }
            if i == path.len() {
                return false;
            }
            if pattern[i] != path[i] {
                proof {
                    if star <= path@.len() {
                        assert(path@.subrange(0, star)[i as int] != pattern@.subrange(0, star)[i as int]);
                    }
                }
                return false;
            }
            i += 1;
        }
    }

    /// Tells whether this endpoint accepts `method`.
    pub fn contain_method(&self, method: &HttpMethod) -> (r: bool)
        ensures
            r == self.method@.contains(*method),
    {
        let mut i: usize = 0;
        while i < self.method.len()
            invariant
                i <= self.method@.len(),
                forall|j: int| 0 <= j < i ==> self.method@[j] != *method,
            decreases self.method@.len() - i,
        {
            if self.method[i] == *method {
                return true;
            }
            i += 1;
        }
        false
    }
}

/// What the router does with a request.
#[derive(Clone, Copy, Debug, PartialEq, Eq, Structural)]
pub enum Route {
    /// No endpoint's pattern matches the path.
    NotFound,
    /// The first endpoint whose pattern matches does not accept the method.
    MethodNotAllowed,
    /// The endpoint at this place of the table serves a file.
    Static(usize),
    /// The endpoint at this place of the table calls its handler.
    Function(usize),
}

/// The place of the first endpoint, at or after `from`, whose pattern
/// matches `path`, or the number of endpoints where none does.
pub open spec fn first_match<F>(endpoints: Seq<ApiEndPoint<F>>, path: Seq<u8>, from: int) -> int
    decreases endpoints.len() - from,
{
    if from >= endpoints.len() {
        endpoints.len() as int
    } else if pattern_matches(endpoints[from].pattern(), path) {
        from
    } else {
        first_match(endpoints, path, from + 1)
    }
}

/// The first match is a match, and no endpoint before it is one.
pub proof fn lemma_first_match<F>(endpoints: Seq<ApiEndPoint<F>>, path: Seq<u8>, from: int)
    requires
        0 <= from <= endpoints.len(),
    ensures
        from <= first_match(endpoints, path, from) <= endpoints.len(),
        first_match(endpoints, path, from) < endpoints.len() ==> pattern_matches(
            endpoints[first_match(endpoints, path, from)].pattern(),
            path,
        ),
        forall|i: int|
            from <= i < first_match(endpoints, path, from) ==> !pattern_matches(
                (#[trigger] endpoints[i]).pattern(),
                path,
            ),
    decreases endpoints.len() - from,
{
    if from < endpoints.len() && !pattern_matches(endpoints[from].pattern(), path) {
        lemma_first_match(endpoints, path, from + 1);
    }
}

/// What the endpoint at `place` does with a request that its pattern
/// matches: it refuses a method that it does not accept, and serves the
/// others after its kind.
pub open spec fn answer_of<F>(endpoint: ApiEndPoint<F>, place: int, method: HttpMethod) -> Route {
    if !endpoint.method@.contains(method) {
        Route::MethodNotAllowed
    } else {
        match endpoint.api_type {
            ApiType::Static => Route::Static(place as usize),
            ApiType::Function(_) => Route::Function(place as usize),
        }
    }
}

/// The route of a request for `path` with `method`.
///
/// The endpoint is chosen by the path alone: it is the first whose pattern
/// matches. The method is held against that endpoint only, so a request is
/// refused for its method although a later endpoint would have taken it.
pub open spec fn route_of<F>(endpoints: Seq<ApiEndPoint<F>>, method: HttpMethod, path: Seq<u8>) -> Route {
    let chosen = first_match(endpoints, path, 0);
    if chosen >= endpoints.len() {
        Route::NotFound
    } else {
        answer_of(endpoints[chosen], chosen, method)
    }
}

/// The first match wins: an endpoint whose pattern matches the path, with
/// none before it that does, answers the request, whatever stands behind it
/// in the table.
pub proof fn lemma_first_match_wins<F>(
    endpoints: Seq<ApiEndPoint<F>>,
    method: HttpMethod,
    path: Seq<u8>,
    place: int,
)
    requires
        0 <= place < endpoints.len(),
        pattern_matches(endpoints[place].pattern(), path),
        forall|i: int| 0 <= i < place ==> !pattern_matches((#[trigger] endpoints[i]).pattern(), path),
    ensures
        first_match(endpoints, path, 0) == place,
        route_of(endpoints, method, path) == answer_of(endpoints[place], place, method),
{
    lemma_first_match(endpoints, path, 0);
}

/// A request whose path matches is never answered with `NotFound`: where
/// the first endpoint that matches does not accept the method, the answer
/// is `MethodNotAllowed`, also where a later endpoint would accept it.
pub proof fn lemma_method_not_allowed<F>(
    endpoints: Seq<ApiEndPoint<F>>,
    method: HttpMethod,
    path: Seq<u8>,
    place: int,
)
    requires
        0 <= place < endpoints.len(),
        pattern_matches(endpoints[place].pattern(), path),
        forall|i: int| 0 <= i < place ==> !pattern_matches((#[trigger] endpoints[i]).pattern(), path),
        !endpoints[place].method@.contains(method),
    ensures
        route_of(endpoints, method, path) == Route::MethodNotAllowed,
{
    lemma_first_match_wins(endpoints, method, path, place);
}

/// `NotFound` is the answer where no pattern matches the path, and only
/// there.
pub proof fn lemma_not_found<F>(endpoints: Seq<ApiEndPoint<F>>, method: HttpMethod, path: Seq<u8>)
    ensures
        route_of(endpoints, method, path) == Route::NotFound <==> forall|i: int|
            0 <= i < endpoints.len() ==> !pattern_matches((#[trigger] endpoints[i]).pattern(), path),
{
    lemma_first_match(endpoints, path, 0);
}

/// An endpoint that is registered later takes nothing from those before
/// it: a request that had a route other than `NotFound` keeps it.
pub proof fn lemma_later_registration<F>(
    endpoints: Seq<ApiEndPoint<F>>,
    added: ApiEndPoint<F>,
    method: HttpMethod,
    path: Seq<u8>,
)
    requires
        route_of(endpoints, method, path) != Route::NotFound,
    ensures
        route_of(endpoints.push(added), method, path) == route_of(endpoints, method, path),
{
    lemma_first_match(endpoints, path, 0);
    let place = first_match(endpoints, path, 0);
    let after = endpoints.push(added);
    lemma_first_match_wins(after, method, path, place);
}

/// A response that carries a status and nothing else.
pub open spec fn status_response(status_code: StatusCode) -> ResponseView {
    ResponseView {
        protocol: HttpProtocol::HTTP1_1,
        status_code: status_code,
        headers: Seq::empty(),
        body: Seq::empty(),
    }
}

/// The response of a static endpoint: the file as the body where it could
/// be read, and the fallback response where it could not, whatever the
/// reason.
pub open spec fn file_response(served_file: Option<Seq<u8>>) -> ResponseView {
    match served_file {
        Some(content) => ResponseView {
            protocol: HttpProtocol::HTTP1_1,
            status_code: StatusCode::OK,
            headers: Seq::empty(),
            body: content,
        },
        None => default_response(),
    }
}

/// The name of the file that a static endpoint serves for `path`, relative
/// to the static root: the path without its first byte, the leading `/`.
/// There is no such name for the empty path, nor where the first byte is
/// only a part of a character.
pub open spec fn file_name(path: Seq<u8>) -> Option<Seq<u8>> {
    if path.len() >= 1 && is_char_boundary(path, 1) {
        Some(path.subrange(1, path.len() as int))
    } else {
        None
    }
}

/// The directory below which the static endpoints find their files.
pub const STATIC_ROOT: &'static str = "static";

/// The name of the file to serve for `request`, relative to `STATIC_ROOT`.
/// It is taken from the path as it is: `..` is not resolved here.
pub fn static_file_name<'a>(request: &'a Request) -> (r: Option<&'a str>)
    ensures
        match file_name(request.path()) {
            Some(name) => r matches Some(found) && text(found) == name,
            None => r is None,
        },
{
    let path = request.request_line.path.as_str();
    if path.as_bytes().len() >= 1 && path.is_char_boundary(1) {
        let (_, name) = path.split_at(1);
        Some(name)
    } else {
        None
    }
}

/// The routing table.
pub struct ApiEndPointManager<F: Fn(&Request) -> Response> {
    endpoints: Vec<ApiEndPoint<F>>,
}

/// The handler accepts every request.
pub open spec fn total<F: Fn(&Request) -> Response>(f: F) -> bool {
    forall|request: &Request| call_requires(f, (request,))
}

impl<F: Fn(&Request) -> Response> View for ApiEndPointManager<F> {
    type V = Seq<ApiEndPoint<F>>;

    closed spec fn view(&self) -> Seq<ApiEndPoint<F>> {
        self.endpoints@
    }
}

impl<F: Fn(&Request) -> Response> ApiEndPointManager<F> {
    /// Holds of every table: each of its handlers accepts every request.
    #[verifier::type_invariant]
    pub closed spec fn well_formed(&self) -> bool {
        forall|i: int, f: F|
            0 <= i < self.endpoints@.len() && (#[trigger] self.endpoints@[i]).api_type
                == ApiType::Function(f) ==> #[trigger] total(f)
    }

    /// A table without endpoints: it routes every request to `NotFound`.
    pub fn new() -> (r: Self)
        ensures
            r@ == Seq::<ApiEndPoint<F>>::empty(),
    {
        ApiEndPointManager { endpoints: Vec::new() }
    }

    /// Adds an endpoint at the end of the table, behind all that were
    /// registered before.
    pub fn register(&mut self, method: Vec<HttpMethod>, path: &str, api_type: ApiType<F>)
        requires
            api_type matches ApiType::Function(f) ==> total(f),
        ensures
            final(self)@.len() == old(self)@.len() + 1,
            final(self)@.drop_last() == old(self)@,
            final(self)@.last().method == method,
            final(self)@.last().path@ == path@,
            final(self)@.last().api_type == api_type,
    {
        proof {
            use_type_invariant(&*self);
        }
        let path = path.to_owned();
        let mut endpoints: Vec<ApiEndPoint<F>> = Vec::new();
        std::mem::swap(&mut endpoints, &mut self.endpoints);
        endpoints.push(ApiEndPoint { method, path, api_type });
        self.endpoints = endpoints;
    }

    /// The table of the example server: `/long_time` and `/mirror`, each
    /// served by the handler given for it, and the files below
    /// `/resource/`. All three accept `GET` alone.
    pub fn get(long_time: F, mirror: F) -> (r: Self)
        requires
            total(long_time),
            total(mirror),
        ensures
            r@.len() == 3,
            r@[0].method@ == seq![HttpMethod::GET],
            r@[0].path@ == "/long_time"@,
            r@[0].api_type == ApiType::Function(long_time),
            r@[1].method@ == seq![HttpMethod::GET],
            r@[1].path@ == "/mirror"@,
            r@[1].api_type == ApiType::Function(mirror),
            r@[2].method@ == seq![HttpMethod::GET],
            r@[2].path@ == "/resource/*"@,
            r@[2].api_type == ApiType::<F>::Static,
    {
        let mut manager = Self::new();
        manager.register_endpoints(long_time, mirror);
        manager
    }

    /// Registers the endpoints of the example server.
    pub fn register_endpoints(&mut self, long_time: F, mirror: F)
        requires
            total(long_time),
            total(mirror),
        ensures
            final(self)@.len() == old(self)@.len() + 3,
            final(self)@.take(old(self)@.len() as int) == old(self)@,
            final(self)@[old(self)@.len() as int].method@ == seq![HttpMethod::GET],
            final(self)@[old(self)@.len() as int].path@ == "/long_time"@,
            final(self)@[old(self)@.len() as int].api_type == ApiType::Function(long_time),
            final(self)@[old(self)@.len() as int + 1].method@ == seq![HttpMethod::GET],
            final(self)@[old(self)@.len() as int + 1].path@ == "/mirror"@,
            final(self)@[old(self)@.len() as int + 1].api_type == ApiType::Function(mirror),
            final(self)@[old(self)@.len() as int + 2].method@ == seq![HttpMethod::GET],
            final(self)@[old(self)@.len() as int + 2].path@ == "/resource/*"@,
            final(self)@[old(self)@.len() as int + 2].api_type == ApiType::<F>::Static,
    {
        let ghost before = self@;
        self.register(vec![HttpMethod::GET], "/long_time", ApiType::Function(long_time));
        let ghost first = self@;
        self.register(vec![HttpMethod::GET], "/mirror", ApiType::Function(mirror));
        let ghost second = self@;
        self.register(vec![HttpMethod::GET], "/resource/*", ApiType::Static);
        // each registration left what stood before it where it was
        assert(first.drop_last() == before && second.drop_last() == first && self@.drop_last()
            == second);
        assert(self@.take(before.len() as int) =~= before);
    }

    /// Chooses the route of `request`.
    pub fn route(&self, request: &Request) -> (r: Route)
        ensures
            r == route_of(self@, request.request_line.method, request.path()),
    {
        let path = request.request_line.path.as_str();
        let mut i: usize = 0;
        while i < self.endpoints.len()
            invariant
                i <= self.endpoints@.len(),
                path@ == request.request_line.path@,
                first_match(self@, text(path), 0) == first_match(self@, text(path), i as int),
            decreases self.endpoints@.len() - i,
        {
            let endpoint = &self.endpoints[i];
            if endpoint.path_matches(path) {
                if !endpoint.contain_method(&request.request_line.method) {
                    return Route::MethodNotAllowed;
                }
                return match endpoint.api_type {
                    ApiType::Static => Route::Static(i),
                    ApiType::Function(_) => Route::Function(i),
                };
            }
            i += 1;
        }
        Route::NotFound
    }

    /// The name of the file that has to be read before `request` can be
    /// answered, relative to `STATIC_ROOT`: there is one where the route is
    /// `Static` and the path has a file name, and none otherwise.
    pub fn wanted_file<'a>(&self, request: &'a Request) -> (r: Option<&'a str>)
        ensures
            match route_of(self@, request.request_line.method, request.path()) {
                Route::Static(_) => match file_name(request.path()) {
                    Some(name) => r matches Some(found) && text(found) == name,
                    None => r is None,
                },
                _ => r is None,
            },
    {
        match self.route(request) {
            Route::Static(_) => static_file_name(request),
            _ => None,
        }
    }

    /// The answer of a static endpoint, given what reading the file gave:
    /// its content, or nothing where the file could not be opened.
    pub fn serve_file(&self, served_file: Option<Vec<u8>>) -> (r: Response)
        ensures
            r@ == file_response(
                match served_file {
                    Some(content) => Some(content@),
                    None => None,
                },
            ),
    {
        match served_file {
            Some(buf) => {
                match Response::builder().status_code(StatusCode::OK).body(buf).build() {
                    Ok(response) => response,
                    Err(_) => Response::default(),
                }
            },
            None => Response::default(),
        }
    }

    /// Calls a handler and hands its response back as it is.
    pub fn call_function(&self, f: &F, request: &Request) -> (r: Response)
        requires
            call_requires(*f, (request,)),
        ensures
            call_ensures(*f, (request,), r),
    {
        f(request)
    }

    /// Answers `request`.
    ///
    /// `served_file` is what reading the file of `wanted_file` below
    /// `STATIC_ROOT` gave: its content, or nothing where there is no such
    /// file or it could not be opened. It is looked at only where the route
    /// is `Static`. A handler's response is handed back as it is.
    pub fn handle_request(&self, request: &Request, served_file: Option<Vec<u8>>) -> (r: Response)
        ensures
            match route_of(self@, request.request_line.method, request.path()) {
                Route::NotFound => r@ == status_response(StatusCode::NotFound),
                Route::MethodNotAllowed => r@ == status_response(StatusCode::MethodNotAllowed),
                Route::Static(_) => r@ == file_response(
                    match served_file {
                        Some(content) => Some(content@),
                        None => None,
                    },
                ),
                Route::Function(i) => self@[i as int].api_type matches ApiType::Function(f)
                    && call_ensures(f, (request,), r),
            },
    {
        proof {
            use_type_invariant(self);
            lemma_first_match(self@, request.path(), 0);
            assert(first_match(self@, request.path(), 0) <= self.endpoints.len());
        }
        match self.route(request) {
            Route::NotFound => Self::status_only(StatusCode::NotFound),
            Route::MethodNotAllowed => Self::status_only(StatusCode::MethodNotAllowed),
            Route::Static(_) => self.serve_file(served_file),
            Route::Function(i) => {
                match &self.endpoints[i].api_type {
                    ApiType::Function(f) => {
                        assert(total(*f));
                        self.call_function(f, request)
                    },
                    ApiType::Static => Response::default(),
                }
            },
        }
    }

    /// A response with a status, without headers and without a body.
    fn status_only(status_code: StatusCode) -> (r: Response)
        ensures
            r@ == status_response(status_code),
    {
        match Response::builder().status_code(status_code).build() {
            Ok(response) => response,
            Err(_) => Response::default(),
        }
    }
}

} // verus!
