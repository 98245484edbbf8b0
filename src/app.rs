//! The dispatcher: exact routes, variable routes and static mounts, and the lookup
//! that picks, for a request, the one that answers it.
use vstd::prelude::*;
use vstd::string::*;
use vstd::utf8::encode_utf8;

use crate::http_method::HTTPMethod;
use crate::request::Request;
use crate::response::{is_not_found_page, Response};
use crate::static_files::{
    is_best_mount, mount_key, mount_matches, normalize_mount, resolved_path, select_mount,
    StaticLookup,
};
use crate::str_map::StrMap;
use crate::template::{compile_template, match_compiled, template_match, template_names, template_pattern, CompiledTemplate};
use crate::text::{join2, str_eq};
use crate::utils::message_page;

verus! {

/// Produces the response for a request on an exact route.
pub trait Handler {
    /// Whether `response` is an answer this handler may give to `request`.
    spec fn answers(&self, request: Request, response: Response) -> bool;

    fn handle(&self, request: Request) -> (r: Response)
        ensures
            self.answers(request, r),
    ;
}

/// Produces the response for a request on a variable route, given the variables that
/// the URL bound.
pub trait VarHandler {
    /// Whether `response` is an answer this handler may give to `request` with `vars`.
    spec fn answers(&self, request: Request, vars: StrMap, response: Response) -> bool;

    fn handle(&self, request: Request, vars: StrMap) -> (r: Response)
        ensures
            self.answers(request, vars, r),
    ;
}

/// A closure that accepts every request, used as an exact-route handler.
pub struct FnHandler<F: Fn(Request) -> Response> {
    f: F,
}

impl<F: Fn(Request) -> Response> FnHandler<F> {
    #[verifier::type_invariant]
    spec fn inv(&self) -> bool {
        forall|r: Request| call_requires(self.f, (r,))
    }

    /// The wrapped closure.
    pub closed spec fn callback(&self) -> F {
        self.f
    }

    /// Wraps a closure that accepts every request.
    pub fn new(f: F) -> (r: FnHandler<F>)
        requires
            forall|r: Request| call_requires(f, (r,)),
        ensures
            r.callback() == f,
    {
        FnHandler { f }
    }
}

impl<F: Fn(Request) -> Response> Handler for FnHandler<F> {
    /// The closure's own postcondition.
    closed spec fn answers(&self, request: Request, response: Response) -> bool {
        call_ensures(self.f, (request,), response)
    }

    /// Calls the closure.
    fn handle(&self, request: Request) -> Response {
        proof {
            use_type_invariant(self);
        }
        (self.f)(request)
    }
}

/// A closure that accepts every request and variable map, used as a variable-route handler.
pub struct FnVarHandler<F: Fn(Request, StrMap) -> Response> {
    f: F,
}

impl<F: Fn(Request, StrMap) -> Response> FnVarHandler<F> {
    #[verifier::type_invariant]
    spec fn inv(&self) -> bool {
        forall|r: Request, v: StrMap| call_requires(self.f, (r, v))
    }

    /// The wrapped closure.
    pub closed spec fn callback(&self) -> F {
        self.f
    }

    /// Wraps a closure that accepts every request and variable map.
    pub fn new(f: F) -> (r: FnVarHandler<F>)
        requires
            forall|r: Request, v: StrMap| call_requires(f, (r, v)),
        ensures
            r.callback() == f,
    {
        FnVarHandler { f }
    }
}

impl<F: Fn(Request, StrMap) -> Response> VarHandler for FnVarHandler<F> {
    /// The closure's own postcondition.
    closed spec fn answers(&self, request: Request, vars: StrMap, response: Response) -> bool {
        call_ensures(self.f, (request, vars), response)
    }

    /// Calls the closure.
    fn handle(&self, request: Request, vars: StrMap) -> Response {
        proof {
            use_type_invariant(self);
        }
        (self.f)(request, vars)
    }
}

/// A route key: a method and a path or template.
pub type RouteKey = (HTTPMethod, Seq<char>);

/// The first position at or after `i` that holds `key`.
pub open spec fn index_from(keys: Seq<RouteKey>, key: RouteKey, i: int) -> Option<int>
    decreases keys.len() - i,
{
    if i < 0 || i >= keys.len() {
        None
    } else if keys[i] == key {
        Some(i)
    } else {
        index_from(keys, key, i + 1)
    }
}

/// A position found by `index_from` holds the key, and no earlier position from `i` does.
pub proof fn lemma_index_from(keys: Seq<RouteKey>, key: RouteKey, i: int)
    requires
        0 <= i,
    ensures
        match index_from(keys, key, i) {
            Some(j) => i <= j < keys.len() && keys[j] == key && forall|k: int|
                i <= k < j ==> keys[k] != key,
            None => forall|k: int| i <= k < keys.len() ==> keys[k] != key,
        },
    decreases keys.len() - i,
{
    if i < keys.len() && keys[i] != key {
        lemma_index_from(keys, key, i + 1);
    }
}

/// The keys after registering `key`: unchanged if it is there (its handler is replaced),
/// else with `key` appended.
pub open spec fn register(keys: Seq<RouteKey>, key: RouteKey) -> Seq<RouteKey> {
    if index_from(keys, key, 0) is Some {
        keys
    } else {
        keys.push(key)
    }
}

/// The mounts after mounting `dest` at `key`: an existing mount with that key gets the
/// new directory in place, else the mount is appended.
pub open spec fn register_mount(mounts: Seq<(Seq<char>, Seq<char>)>, key: Seq<char>, dest: Seq<char>) -> Seq<
    (Seq<char>, Seq<char>),
> {
    if exists|i: int| 0 <= i < mounts.len() && mounts[i].0 == key {
        let i = choose|i: int| 0 <= i < mounts.len() && mounts[i].0 == key;
        mounts.update(i, (key, dest))
    } else {
        mounts.push((key, dest))
    }
}

/// The first variable route at or after `i` with this method whose template matches `url`.
pub open spec fn var_match_from(keys: Seq<RouteKey>, method: HTTPMethod, url: Seq<char>, i: int) -> Option<int>
    decreases keys.len() - i,
{
    if i < 0 || i >= keys.len() {
        None
    } else if keys[i].0 == method && template_match(keys[i].1, url) is Some {
        Some(i)
    } else {
        var_match_from(keys, method, url, i + 1)
    }
}

/// A position found by `var_match_from` holds a matching route of that method, and no
/// earlier position from `i` does.
pub proof fn lemma_var_match_from(keys: Seq<RouteKey>, method: HTTPMethod, url: Seq<char>, i: int)
    requires
        0 <= i,
    ensures
        match var_match_from(keys, method, url, i) {
            Some(j) => i <= j < keys.len() && keys[j].0 == method && template_match(keys[j].1, url) is Some,
            None => forall|k: int|
                i <= k < keys.len() ==> !(keys[k].0 == method && template_match(keys[k].1, url) is Some),
        },
    decreases keys.len() - i,
{
    if i < keys.len() && !(keys[i].0 == method && template_match(keys[i].1, url) is Some) {
        lemma_var_match_from(keys, method, url, i + 1);
    }
}

/// At most one mount is the best for a URL.
pub proof fn lemma_best_mount_unique(mounts: Seq<(Seq<char>, Seq<char>)>, url: Seq<char>, a: int, b: int)
    requires
        is_best_mount(mounts, url, a),
        is_best_mount(mounts, url, b),
    ensures
        a == b,
{
    if a < b {
        assert(mount_matches(url, mounts[a].0));
        assert(mount_matches(url, mounts[b].0));
    } else if b < a {
        assert(mount_matches(url, mounts[a].0));
        assert(mount_matches(url, mounts[b].0));
    }
}

/// Which route answers a request.
pub enum Selection {
    /// The exact route at this position.
    Exact(nat),
    /// The variable route at this position, with the variables the URL bound.
    Var(nat, Map<Seq<char>, Seq<char>>),
    /// The static mount at this position.
    Static(nat),
    /// No route: the answer is 404.
    Missing,
}

/// The route that answers `method` and `url`: an exact route first, then the first
/// matching variable route, then the most specific matching static mount, else none.
pub open spec fn select(
    exact: Seq<RouteKey>,
    vars: Seq<RouteKey>,
    mounts: Seq<(Seq<char>, Seq<char>)>,
    method: HTTPMethod,
    url: Seq<char>,
) -> Selection {
    match index_from(exact, (method, url), 0) {
        Some(i) => Selection::Exact(i as nat),
        None => match var_match_from(vars, method, url, 0) {
            Some(i) => Selection::Var(i as nat, template_match(vars[i].1, url)->0),
            None => if exists|b: int| is_best_mount(mounts, url, b) {
                Selection::Static((choose|b: int| is_best_mount(mounts, url, b)) as nat)
            } else {
                Selection::Missing
            },
        },
    }
}

/// What `lookup` found.
pub enum Route {
    /// The exact route at this position.
    Exact(usize),
    /// The variable route at this position, with the variables the URL bound.
    Var(usize, StrMap),
    /// A static mount matched: the path still has to be looked up on disk.
    Static(StaticLookup),
    /// No route matched.
    NotFound,
}

/// What `find_response` produced.
pub enum Dispatch {
    /// The response to send.
    Done(Response),
    /// A static mount matched: the path still has to be looked up on disk.
    Static(StaticLookup),
}

struct ExactRoute {
    method: HTTPMethod,
    url: String,
    handler: Box<dyn Handler>,
}

impl ExactRoute {
    fn new<F: Fn(Request) -> Response + 'static>(method: HTTPMethod, url: &str, f: F) -> (r: ExactRoute)
        requires
            forall|q: Request| call_requires(f, (q,)),
        ensures
            r.method == method,
            r.url@ == url@,
            forall|q: Request, resp: Response| r.handler.answers(q, resp) == call_ensures(f, (q,), resp),
    {
        ExactRoute { method, url: url.to_owned(), handler: Box::new(FnHandler::new(f)) }
    }
}

struct VarRoute {
    method: HTTPMethod,
    template: String,
    compiled: CompiledTemplate,
    handler: Box<dyn VarHandler>,
}

impl VarRoute {
    fn new<F: Fn(Request, StrMap) -> Response + 'static>(method: HTTPMethod, template: &str, f: F) -> (r: VarRoute)
        requires
            forall|q: Request, v: StrMap| call_requires(f, (q, v)),
        ensures
            r.method == method,
            r.template@ == template@,
            r.compiled.pattern@ == template_pattern(template@),
            r.compiled.names_view() == template_names(template@),
            forall|q: Request, v: StrMap, resp: Response|
                r.handler.answers(q, v, resp) == call_ensures(f, (q, v), resp),
    {
        VarRoute {
            method,
            template: template.to_owned(),
            compiled: compile_template(template),
            handler: Box::new(FnVarHandler::new(f)),
        }
    }
}

/// The routing tables of an application.
pub struct App {
    exact_routes: Vec<ExactRoute>,
    var_routes: Vec<VarRoute>,
    static_routes: Vec<(String, String)>,
}

/// Two mounts never share a key.
pub open spec fn mount_keys_unique(mounts: Seq<(Seq<char>, Seq<char>)>) -> bool {
    forall|i: int, j: int|
        0 <= i < mounts.len() && 0 <= j < mounts.len() && i != j ==> #[trigger] mounts[i].0
            != #[trigger] mounts[j].0
}

impl App {
    /// The keys of the exact routes, in registration order.
    pub closed spec fn exact_keys(&self) -> Seq<RouteKey> {
        self.exact_routes@.map_values(|r: ExactRoute| (r.method, r.url@))
    }

    /// The keys (method and template) of the variable routes, in registration order.
    pub closed spec fn var_keys(&self) -> Seq<RouteKey> {
        self.var_routes@.map_values(|r: VarRoute| (r.method, r.template@))
    }

    /// The static mounts (key and directory), in registration order.
    pub closed spec fn mounts(&self) -> Seq<(Seq<char>, Seq<char>)> {
        self.static_routes@.map_values(|m: (String, String)| (m.0@, m.1@))
    }

    /// Every variable route holds its template compiled, and mount keys are unique.
    pub closed spec fn wf(&self) -> bool {
        &&& forall|i: int|
            0 <= i < self.var_routes@.len() ==> (#[trigger] self.var_routes@[i]).compiled.pattern@
                == template_pattern(self.var_routes@[i].template@)
                && self.var_routes@[i].compiled.names_view() == template_names(
                self.var_routes@[i].template@,
            )
        &&& mount_keys_unique(self.mounts())
    }

    /// Whether `resp` is an answer that the exact route at position `i` may give to `req`.
    pub closed spec fn exact_answers(&self, i: int, req: Request, resp: Response) -> bool {
        self.exact_routes@[i].handler.answers(req, resp)
    }

    /// Whether `resp` is an answer that the variable route at position `i` may give to `req`
    /// with the variables `vars`.
    pub closed spec fn var_answers(&self, i: int, req: Request, vars: StrMap, resp: Response) -> bool {
        self.var_routes@[i].handler.answers(req, vars, resp)
    }

    /// Whether `resp` is an answer that the variable route at position `i` may give to `req`
    /// with variables that hold `vars`.
    pub open spec fn var_answers_with(
        &self,
        i: int,
        req: Request,
        vars: Map<Seq<char>, Seq<char>>,
        resp: Response,
    ) -> bool {
        exists|v: StrMap| v@ == vars && #[trigger] self.var_answers(i, req, v, resp)
    }

    /// Every route of `self` answers as the route at the same position of `old` does.
    pub open spec fn same_handlers(&self, old: App) -> bool {
        &&& forall|j: int, q: Request, resp: Response| #[trigger]
            self.exact_answers(j, q, resp) == old.exact_answers(j, q, resp)
        &&& forall|j: int, q: Request, v: StrMap, resp: Response| #[trigger]
            self.var_answers(j, q, v, resp) == old.var_answers(j, q, v, resp)
    }

    /// `self` is `old` after registering `f` for `method` and `url`: the exact route with
    /// that key answers as `f` does, and every other route answers as before.
    pub open spec fn routed<F: Fn(Request) -> Response>(
        &self,
        old: App,
        method: HTTPMethod,
        url: Seq<char>,
        f: F,
    ) -> bool {
        &&& self.wf()
        &&& self.exact_keys() == register(old.exact_keys(), (method, url))
        &&& self.var_keys() == old.var_keys()
        &&& self.mounts() == old.mounts()
        &&& index_from(self.exact_keys(), (method, url), 0) is Some
        &&& forall|q: Request, resp: Response| #[trigger]
            self.exact_answers(index_from(self.exact_keys(), (method, url), 0)->0, q, resp)
                == call_ensures(f, (q,), resp)
        &&& forall|j: int, q: Request, resp: Response|
            0 <= j < old.exact_keys().len() && j != index_from(self.exact_keys(), (method, url), 0)->0
                ==> #[trigger] self.exact_answers(j, q, resp) == old.exact_answers(j, q, resp)
        &&& forall|j: int, q: Request, v: StrMap, resp: Response| #[trigger]
            self.var_answers(j, q, v, resp) == old.var_answers(j, q, v, resp)
    }

    /// `self` is `old` after registering `f` for `method` and the template `url`: the
    /// variable route with that key answers as `f` does, and every other route as before.
    pub open spec fn var_routed<F: Fn(Request, StrMap) -> Response>(
        &self,
        old: App,
        method: HTTPMethod,
        url: Seq<char>,
        f: F,
    ) -> bool {
        &&& self.wf()
        &&& self.var_keys() == register(old.var_keys(), (method, url))
        &&& self.exact_keys() == old.exact_keys()
        &&& self.mounts() == old.mounts()
        &&& index_from(self.var_keys(), (method, url), 0) is Some
        &&& forall|q: Request, v: StrMap, resp: Response| #[trigger]
            self.var_answers(index_from(self.var_keys(), (method, url), 0)->0, q, v, resp)
                == call_ensures(f, (q, v), resp)
        &&& forall|j: int, q: Request, v: StrMap, resp: Response|
            0 <= j < old.var_keys().len() && j != index_from(self.var_keys(), (method, url), 0)->0
                ==> #[trigger] self.var_answers(j, q, v, resp) == old.var_answers(j, q, v, resp)
        &&& forall|j: int, q: Request, resp: Response| #[trigger]
            self.exact_answers(j, q, resp) == old.exact_answers(j, q, resp)
    }

    /// The route that answers a request with this method and URL.
    pub open spec fn selection(&self, method: HTTPMethod, url: Seq<char>) -> Selection {
        select(self.exact_keys(), self.var_keys(), self.mounts(), method, url)
    }

    /// An application without routes.
    pub fn new() -> (r: App)
        ensures
            r.wf(),
            r.exact_keys().len() == 0,
            r.var_keys().len() == 0,
            r.mounts().len() == 0,
    {
        let r = App { exact_routes: Vec::new(), var_routes: Vec::new(), static_routes: Vec::new() };
        assert(r.exact_keys() =~= Seq::<RouteKey>::empty());
        assert(r.var_keys() =~= Seq::<RouteKey>::empty());
        assert(r.mounts() =~= Seq::<(Seq<char>, Seq<char>)>::empty());
        r
    }

    /// The position of the exact route for this method and path.
    fn find_exact(&self, method: HTTPMethod, url: &str) -> (r: Option<usize>)
        ensures
            match r {
                Some(i) => index_from(self.exact_keys(), (method, url@), 0) == Some(i as int) && i
                    < self.exact_keys().len(),
                None => index_from(self.exact_keys(), (method, url@), 0) is None,
            },
    {
        let ghost keys = self.exact_keys();
        let mut i: usize = 0;
        while i < self.exact_routes.len()
            invariant
                i <= self.exact_routes@.len(),
                keys == self.exact_keys(),
                index_from(keys, (method, url@), 0) == index_from(keys, (method, url@), i as int),
            decreases self.exact_routes@.len() - i,
        {
            if self.exact_routes[i].method == method && str_eq(self.exact_routes[i].url.as_str(), url) {
                assert(keys[i as int] == (method, url@));
                return Some(i);
            }
            i = i + 1;
        }
        None
    }

    /// The position of the variable route for this method and template.
    fn find_var(&self, method: HTTPMethod, template: &str) -> (r: Option<usize>)
        ensures
            match r {
                Some(i) => index_from(self.var_keys(), (method, template@), 0) == Some(i as int)
                    && i < self.var_keys().len(),
                None => index_from(self.var_keys(), (method, template@), 0) is None,
            },
    {
        let ghost keys = self.var_keys();
        let mut i: usize = 0;
        while i < self.var_routes.len()
            invariant
                i <= self.var_routes@.len(),
                keys == self.var_keys(),
                index_from(keys, (method, template@), 0) == index_from(
                    keys,
                    (method, template@),
                    i as int,
                ),
            decreases self.var_routes@.len() - i,
        {
            if self.var_routes[i].method == method && str_eq(
                self.var_routes[i].template.as_str(),
                template,
            ) {
                assert(keys[i as int] == (method, template@));
                return Some(i);
            }
            i = i + 1;
        }
        None
    }

    /// The position of the mount with this key.
    fn find_mount(&self, key: &str) -> (r: Option<usize>)
        ensures
            match r {
                Some(i) => i < self.mounts().len() && self.mounts()[i as int].0 == key@,
                None => forall|j: int| 0 <= j < self.mounts().len() ==> self.mounts()[j].0 != key@,
            },
    {
        let mut i: usize = 0;
        while i < self.static_routes.len()
            invariant
                i <= self.static_routes@.len(),
                forall|j: int| 0 <= j < i ==> self.mounts()[j].0 != key@,
            decreases self.static_routes@.len() - i,
        {
            if str_eq(self.static_routes[i].0.as_str(), key) {
                return Some(i);
            }
            i = i + 1;
        }
        None
    }

    /// Finds the route that answers a request: an exact route for its method and URL; else
    /// the first variable route, in registration order, of its method whose template matches
    /// the whole URL; else the most specific matching static mount; else none.
    pub fn lookup(&self, request: &Request) -> (r: Route)
        requires
            self.wf(),
        ensures
            match self.selection(request.method, request.url@) {
                Selection::Exact(i) => r matches Route::Exact(j) && j == i && i < self.exact_keys().len(),
                Selection::Var(i, vars) => r matches Route::Var(j, v) && j == i && v@ == vars && i
                    < self.var_keys().len(),
                Selection::Static(b) => {
                    &&& r matches Route::Static(l)
                    &&& l.url@ == request.url@
                    &&& l.path@ == resolved_path(
                        request.url@,
                        self.mounts()[b as int].0,
                        self.mounts()[b as int].1,
                    )
                },
                Selection::Missing => r matches Route::NotFound,
            },
    {
        let method = request.method;
        let url = request.url.as_str();
        let ghost u = url@;
        proof {
            lemma_index_from(self.exact_keys(), (method, u), 0);
        }
        if let Some(i) = self.find_exact(method, url) {
            return Route::Exact(i);
        }
        let ghost keys = self.var_keys();
        let mut i: usize = 0;
        while i < self.var_routes.len()
            invariant
                self.wf(),
                i <= self.var_routes@.len(),
                keys == self.var_keys(),
                u == url@,
                u == request.url@,
                method == request.method,
                index_from(self.exact_keys(), (method, u), 0) is None,
                var_match_from(keys, method, u, 0) == var_match_from(keys, method, u, i as int),
            decreases self.var_routes@.len() - i,
        {
            let route = &self.var_routes[i];
            assert(keys[i as int] == (route.method, route.template@));
            if route.method == method {
                match match_compiled(&route.compiled, url) {
                    Some(vars) => {
                        proof {
                            assert(template_match(keys[i as int].1, u) == Some(vars@));
                            lemma_var_match_from(keys, method, u, 0);
                        }
                        return Route::Var(i, vars);
                    },
                    None => {},
                }
            }
            i = i + 1;
        }
        proof {
            lemma_var_match_from(keys, method, u, 0);
        }
        let ghost ms = self.mounts();
        match select_mount(&self.static_routes, url) {
            Some(b) => {
                proof {
                    let c = choose|c: int| is_best_mount(ms, u, c);
                    lemma_best_mount_unique(ms, u, b as int, c);
                }
                let key = self.static_routes[b].0.as_str();
                let dest = self.static_routes[b].1.as_str();
                assert(ms[b as int] == (key@, dest@));
                let root = str_eq(key, "/");
                proof {
                    reveal_strlit("/");
                    assert("/"@ =~= seq!['/']);
                }
                let path = if root {
                    join2(dest, url)
                } else {
                    let n = url.unicode_len();
                    let k = key.unicode_len();
                    join2(dest, url.substring_char(k, n))
                };
                Route::Static(StaticLookup { url: url.to_owned(), path })
            },
            None => {
                proof {
                    assert forall|b: int| !is_best_mount(ms, u, b) by {
                        if 0 <= b < ms.len() {
                            assert(ms[b].0 == self.static_routes@[b].0@);
                        }
                    }
                }
                Route::NotFound
            },
        }
    }

    /// Answers a request: the handler's response for an exact or variable route (the request,
    /// and the bound variables, are handed to it), the canned 404 page when no route matches,
    /// or the static lookup still to be done on disk.
    pub fn find_response(&self, request: Request) -> (r: Dispatch)
        requires
            self.wf(),
        ensures
            match self.selection(request.method, request.url@) {
                Selection::Static(b) => {
                    &&& r matches Dispatch::Static(l)
                    &&& l.url@ == request.url@
                    &&& l.path@ == resolved_path(
                        request.url@,
                        self.mounts()[b as int].0,
                        self.mounts()[b as int].1,
                    )
                },
                Selection::Exact(i) => r matches Dispatch::Done(resp) && self.exact_answers(
                    i as int,
                    request,
                    resp,
                ),
                Selection::Var(i, vars) => r matches Dispatch::Done(resp)
                    && self.var_answers_with(i as int, request, vars, resp),
                Selection::Missing => r matches Dispatch::Done(resp) && is_not_found_page(&resp),
            },
    {
        match self.lookup(&request) {
            Route::Exact(i) => Dispatch::Done(self.exact_routes[i].handler.handle(request)),
            Route::Var(i, vars) => {
                let ghost req = request;
                let ghost v = vars;
                let resp = self.var_routes[i].handler.handle(request, vars);
                assert(self.var_answers(i as int, req, v, resp));
                assert(self.var_answers_with(i as int, req, v@, resp));
                Dispatch::Done(resp)
            },
            Route::Static(l) => Dispatch::Static(l),
            Route::NotFound => Dispatch::Done(Response::not_found()),
        }
    }

    /// Registers `callback` for requests with this method and exactly this path; a later
    /// registration of the same method and path replaces the handler.
    pub fn route<F: Fn(Request) -> Response + 'static>(
        &mut self,
        method: HTTPMethod,
        url: &str,
        callback: F,
    ) -> (r: &mut App)
        requires
            old(self).wf(),
            forall|q: Request| call_requires(callback, (q,)),
        ensures
            r.routed(*old(self), method, url@, callback),
            *final(self) == *final(r),
    {
        let ghost keys = self.exact_keys();
        let ghost before = self.exact_routes@;
        let found = self.find_exact(method, url);
        let entry = ExactRoute::new(method, url, callback);
        let ghost e = entry;
        proof {
            lemma_index_from(keys, (method, url@), 0);
        }
        let ghost idx: int;
        if let Some(i) = found {
            self.exact_routes.set(i, entry);
            assert(self.exact_keys() =~= keys);
            proof {
                idx = i as int;
            }
        } else {
            self.exact_routes.push(entry);
            assert(self.exact_keys() =~= keys.push((method, url@)));
            proof {
                idx = keys.len() as int;
                assert(self.exact_keys()[idx] == (method, url@));
                lemma_index_from(self.exact_keys(), (method, url@), 0);
                assert(forall|k: int| 0 <= k < idx ==> self.exact_keys()[k] == keys[k]);
            }
        }
        proof {
            lemma_index_from(self.exact_keys(), (method, url@), 0);
            assert(index_from(self.exact_keys(), (method, url@), 0) == Some(idx));
            assert(self.exact_routes@[idx] == e);
            assert forall|j: int| 0 <= j < before.len() && j != idx implies self.exact_routes@[j]
                == before[j] by {}
        }
        self
    }

    /// Registers `callback` for requests with this method whose URL matches the template
    /// (see `compile_template`); a later registration of the same method and template
    /// replaces the handler.
    pub fn route_var<F: Fn(Request, StrMap) -> Response + 'static>(
        &mut self,
        method: HTTPMethod,
        url: &str,
        callback: F,
    ) -> (r: &mut App)
        requires
            old(self).wf(),
            forall|q: Request, v: StrMap| call_requires(callback, (q, v)),
        ensures
            r.var_routed(*old(self), method, url@, callback),
            *final(self) == *final(r),
    {
        let ghost keys = self.var_keys();
        let ghost before = self.var_routes@;
        let found = self.find_var(method, url);
        let entry = VarRoute::new(method, url, callback);
        let ghost e = entry;
        proof {
            lemma_index_from(keys, (method, url@), 0);
        }
        let ghost idx: int;
        if let Some(i) = found {
            self.var_routes.set(i, entry);
            assert(self.var_keys() =~= keys);
            proof {
                idx = i as int;
            }
        } else {
            self.var_routes.push(entry);
            assert(self.var_keys() =~= keys.push((method, url@)));
            proof {
                idx = keys.len() as int;
                assert(self.var_keys()[idx] == (method, url@));
                assert(forall|k: int| 0 <= k < idx ==> self.var_keys()[k] == keys[k]);
            }
        }
        proof {
            lemma_index_from(self.var_keys(), (method, url@), 0);
            assert(index_from(self.var_keys(), (method, url@), 0) == Some(idx));
            assert(self.var_routes@[idx] == e);
            assert forall|j: int| 0 <= j < before.len() && j != idx implies self.var_routes@[j]
                == before[j] by {}
        }
        assert forall|i: int| 0 <= i < self.var_routes@.len() implies (#[trigger] self.var_routes@[i]).compiled.pattern@
            == template_pattern(self.var_routes@[i].template@)
            && self.var_routes@[i].compiled.names_view() == template_names(
            self.var_routes@[i].template@,
        ) by {
            if i != idx {
                assert(self.var_routes@[i] == before[i]);
            }
        }
        self
    }

    /// Registers an exact `GET` route.
    pub fn get<F: Fn(Request) -> Response + 'static>(&mut self, url: &str, callback: F) -> (r: &mut App)
        requires
            old(self).wf(),
            forall|q: Request| call_requires(callback, (q,)),
        ensures
            r.routed(*old(self), HTTPMethod::GET, url@, callback),
            *final(self) == *final(r),
    {
        self.route(HTTPMethod::GET, url, callback)
    }

    /// Registers an exact `POST` route.
    pub fn post<F: Fn(Request) -> Response + 'static>(&mut self, url: &str, callback: F) -> (r: &mut App)
        requires
            old(self).wf(),
            forall|q: Request| call_requires(callback, (q,)),
        ensures
            r.routed(*old(self), HTTPMethod::POST, url@, callback),
            *final(self) == *final(r),
    {
        self.route(HTTPMethod::POST, url, callback)
    }

    /// Registers a `GET` variable route.
    pub fn get_var<F: Fn(Request, StrMap) -> Response + 'static>(&mut self, url: &str, callback: F) -> (r: &mut App)
        requires
            old(self).wf(),
            forall|q: Request, v: StrMap| call_requires(callback, (q, v)),
        ensures
            r.var_routed(*old(self), HTTPMethod::GET, url@, callback),
            *final(self) == *final(r),
    {
        self.route_var(HTTPMethod::GET, url, callback)
    }

    /// Registers a `POST` variable route.
    pub fn post_var<F: Fn(Request, StrMap) -> Response + 'static>(&mut self, url: &str, callback: F) -> (r: &mut App)
        requires
            old(self).wf(),
            forall|q: Request, v: StrMap| call_requires(callback, (q, v)),
        ensures
            r.var_routed(*old(self), HTTPMethod::POST, url@, callback),
            *final(self) == *final(r),
    {
        self.route_var(HTTPMethod::POST, url, callback)
    }

    /// Serves the files under directory `dest` at URL prefix `url` (normalised: no
    /// trailing `/`, one leading `/`); mounting the same prefix again replaces the directory.
    pub fn static_(&mut self, url: &str, dest: &str) -> (r: &mut App)
        requires
            old(self).wf(),
        ensures
            r.wf(),
            r.mounts() == register_mount(old(self).mounts(), mount_key(url@), dest@),
            r.exact_keys() == old(self).exact_keys(),
            r.var_keys() == old(self).var_keys(),
            r.same_handlers(*old(self)),
            *final(self) == *final(r),
    {
        let key = normalize_mount(url);
        let ghost ms = self.mounts();
        let found = self.find_mount(key.as_str());
        let entry = (key, dest.to_owned());
        if let Some(i) = found {
            self.static_routes.set(i, entry);
            assert(self.mounts() =~= ms.update(i as int, (mount_key(url@), dest@)));
            proof {
                let c = choose|c: int| 0 <= c < ms.len() && ms[c].0 == mount_key(url@);
                assert(c == i);
            }
        } else {
            self.static_routes.push(entry);
            assert(self.mounts() =~= ms.push((mount_key(url@), dest@)));
        }
        assert(mount_keys_unique(self.mounts())) by {
            let ns = self.mounts();
            assert forall|a: int, b: int|
                0 <= a < ns.len() && 0 <= b < ns.len() && a != b implies #[trigger] ns[a].0
                != #[trigger] ns[b].0 by {
                if a < ms.len() && b < ms.len() {
                    if found is None || (a != found->0 && b != found->0) {
                        assert(ns[a] == ms[a] && ns[b] == ms[b]);
                    } else if a == found->0 {
                        assert(ns[b] == ms[b]);
                        assert(ms[a].0 == ns[a].0);
                    } else {
                        assert(ns[a] == ms[a]);
                        assert(ms[b].0 == ns[b].0);
                    }
                }
            }
        }
        self
    }
}

impl Default for App {
    /// An application without routes.
    fn default() -> (r: App)
        ensures
            r.wf(),
            r.exact_keys().len() == 0,
            r.var_keys().len() == 0,
            r.mounts().len() == 0,
    {
        App::new()
    }
}

/// A registered exact route answers every request with its method and path; a request
/// whose method and path were not registered together is not answered by an exact route.
pub proof fn lemma_exact_routes_answer(
    exact: Seq<RouteKey>,
    vars: Seq<RouteKey>,
    mounts: Seq<(Seq<char>, Seq<char>)>,
    method: HTTPMethod,
    url: Seq<char>,
)
    ensures
        (exists|i: int| 0 <= i < exact.len() && exact[i] == (method, url)) ==> (select(
            exact,
            vars,
            mounts,
            method,
            url,
        ) matches Selection::Exact(i) && i < exact.len() && exact[i as int] == (method, url)),
        (forall|i: int| 0 <= i < exact.len() ==> exact[i] != (method, url)) ==> !(select(
            exact,
            vars,
            mounts,
            method,
            url,
        ) is Exact),
{
    lemma_index_from(exact, (method, url), 0);
}

/// After a route is registered, a request with its method and path is answered by it.
pub proof fn lemma_registered_route_answers(
    exact: Seq<RouteKey>,
    vars: Seq<RouteKey>,
    mounts: Seq<(Seq<char>, Seq<char>)>,
    method: HTTPMethod,
    url: Seq<char>,
)
    ensures
        ({
            let keys = register(exact, (method, url));
            select(keys, vars, mounts, method, url) matches Selection::Exact(i) && i < keys.len()
                && keys[i as int] == (method, url)
        }),
{
    let keys = register(exact, (method, url));
    lemma_index_from(exact, (method, url), 0);
    if index_from(exact, (method, url), 0) is None {
        assert(keys[keys.len() - 1] == (method, url));
    }
    lemma_exact_routes_answer(keys, vars, mounts, method, url);
}

/// After `f` is registered for `method` and `url`, a request with that method and URL is
/// answered by the exact route that answers as `f` does (so the last registration wins).
pub proof fn lemma_route_then_dispatch<F: Fn(Request) -> Response>(
    old: App,
    new: App,
    method: HTTPMethod,
    url: Seq<char>,
    f: F,
)
    requires
        new.routed(old, method, url, f),
    ensures
        new.selection(method, url) matches Selection::Exact(i) && forall|q: Request, resp: Response|
            new.exact_answers(i as int, q, resp) == call_ensures(f, (q,), resp),
{
    lemma_registered_route_answers(old.exact_keys(), new.var_keys(), new.mounts(), method, url);
    let i = index_from(new.exact_keys(), (method, url), 0)->0;
    lemma_index_from(new.exact_keys(), (method, url), 0);
    assert(new.selection(method, url) == Selection::Exact(i as nat));
    assert forall|q: Request, resp: Response| new.exact_answers(i, q, resp) == call_ensures(
        f,
        (q,),
        resp,
    ) by {}
}

/// A request that no exact route, no variable route of its method and no static mount
/// matches gets no route, so `find_response` answers it with the 404 page.
pub proof fn lemma_unmatched_request_not_found(
    exact: Seq<RouteKey>,
    vars: Seq<RouteKey>,
    mounts: Seq<(Seq<char>, Seq<char>)>,
    method: HTTPMethod,
    url: Seq<char>,
)
    requires
        forall|i: int| 0 <= i < exact.len() ==> exact[i] != (method, url),
        forall|i: int|
            0 <= i < vars.len() ==> !(vars[i].0 == method && template_match(vars[i].1, url) is Some),
        forall|j: int| 0 <= j < mounts.len() ==> !mount_matches(url, #[trigger] mounts[j].0),
    ensures
        select(exact, vars, mounts, method, url) == Selection::Missing,
{
    lemma_index_from(exact, (method, url), 0);
    lemma_var_match_from(vars, method, url, 0);
}

} // verus!
