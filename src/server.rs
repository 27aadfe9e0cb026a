//! The server binding pass: per method a handler plan (which values are
//! extracted from a request, in which order, and how they are handed to
//! the service method) and a route entry; and the conversion of a
//! handler's three-way result into a response.

use vstd::prelude::*;

use crate::model::{indices_of, kinds_of, HttpMethod, MethodSpec, ParamKind, ParamSpec, ServiceSpec};

verus! {

/// One extraction step of a generated handler.
#[derive(Debug, Clone, Copy, PartialEq, Eq, Structural)]
pub enum Extractor {
    /// The shared service instance.
    State,
    /// The Path-role parameters: a single value when there is one, a
    /// positional tuple (see [`HandlerPlan::path_params`]) when there are more.
    Path,
    /// The Query-role parameter at this declared position.
    Query(usize),
    /// The Body-role parameter at this declared position.
    Body(usize),
}

/// Where a handler finds the value it passes for one declared parameter.
#[derive(Debug, Clone, Copy, PartialEq, Eq, Structural)]
pub enum ArgSource {
    /// This position of the extracted path tuple.
    PathPart(usize),
    /// The value of the extraction step at this position.
    Extracted(usize),
}

/// The generated request handler of one method.
#[derive(Debug)]
pub struct HandlerPlan {
    /// The handler's own name.
    pub handler_name: String,
    /// The service method it calls.
    pub method_name: String,
    /// Extraction steps, in the order the handler performs them.
    pub extractors: Vec<Extractor>,
    /// The declared positions of the Path-role parameters, in order.
    pub path_params: Vec<usize>,
    /// For each declared parameter, in declared order, where its value comes from.
    pub call_args: Vec<ArgSource>,
}

/// One registration for the host router.
#[derive(Debug)]
pub struct RouteEntry {
    pub http_method: HttpMethod,
    pub path: String,
    pub handler: String,
}

/// The name of the handler generated for a method.
pub open spec fn handler_name_of(method: Seq<char>) -> Seq<char> {
    "__axum_handler_"@ + method
}

/// The extraction order: the service instance, then the path values (if
/// any), then each Query-role and each Body-role parameter in declared order.
pub open spec fn extraction_order(ks: Seq<ParamKind>) -> Seq<Extractor> {
    seq![Extractor::State] + (if indices_of(ks, ParamKind::Path).len() > 0 {
        seq![Extractor::Path]
    } else {
        Seq::empty()
    }) + indices_of(ks, ParamKind::Query).map_values(|i: usize| Extractor::Query(i))
        + indices_of(ks, ParamKind::Body).map_values(|i: usize| Extractor::Body(i))
}

/// Where the value of declared parameter `i` is found.
pub open spec fn arg_source(ks: Seq<ParamKind>, i: int) -> ArgSource {
    let has_path: int = if indices_of(ks, ParamKind::Path).len() > 0 {
        1
    } else {
        0
    };
    let before = ks.take(i);
    match ks[i] {
        ParamKind::Path => ArgSource::PathPart(indices_of(before, ParamKind::Path).len() as usize),
        ParamKind::Query => ArgSource::Extracted(
            (1 + has_path + indices_of(before, ParamKind::Query).len()) as usize,
        ),
        ParamKind::Body => ArgSource::Extracted(
            (1 + has_path + indices_of(ks, ParamKind::Query).len() + indices_of(
                before,
                ParamKind::Body,
            ).len()) as usize,
        ),
    }
}

/// The route template handed to the host router: its `{name}` placeholder
/// syntax is the one of the definition, so the template is passed on as is.
pub fn path_to_axum(path: &str) -> (r: &str)
    ensures
        r@ == path@,
{
    path
}

proof fn lemma_indices_step(ks: Seq<ParamKind>, j: int, k: ParamKind)
    requires
        0 <= j < ks.len(),
    ensures
        indices_of(ks.take(j + 1), k) == if ks[j] == k {
            indices_of(ks.take(j), k).push(j as usize)
        } else {
            indices_of(ks.take(j), k)
        },
{
    assert(ks.take(j + 1).drop_last() =~= ks.take(j));
}

proof fn lemma_indices_len(ks: Seq<ParamKind>, k: ParamKind)
    ensures
        indices_of(ks, k).len() <= ks.len(),
    decreases ks.len(),
{
    if ks.len() > 0 {
        lemma_indices_len(ks.drop_last(), k);
    }
}

proof fn lemma_indices_partition(ks: Seq<ParamKind>)
    ensures
        indices_of(ks, ParamKind::Path).len() + indices_of(ks, ParamKind::Query).len()
            + indices_of(ks, ParamKind::Body).len() == ks.len(),
    decreases ks.len(),
{
    if ks.len() > 0 {
        lemma_indices_partition(ks.drop_last());
    }
}

/// The declared positions of the parameters with role `k`, in order.
pub fn collect_indices(params: &Vec<ParamSpec>, k: ParamKind) -> (r: Vec<usize>)
    ensures
        r@ == indices_of(kinds_of(params@), k),
{
    let ghost ks = kinds_of(params@);
    let mut out: Vec<usize> = Vec::new();
    let mut j: usize = 0;
    while j < params.len()
        invariant
            ks == kinds_of(params@),
            j <= params@.len(),
            out@ == indices_of(ks.take(j as int), k),
        decreases params.len() - j,
    {
        proof {
            lemma_indices_step(ks, j as int, k);
        }
        if params[j].kind == k {
            out.push(j);
        }
        j = j + 1;
    }
    assert(ks.take(j as int) =~= ks);
    out
}

/// The handler plan generated for a method.
pub open spec fn handler_matches(h: HandlerPlan, m: MethodSpec) -> bool {
    &&& h.handler_name@ == handler_name_of(m.name@)
    &&& h.method_name@ == m.name@
    &&& h.extractors@ == extraction_order(kinds_of(m.params@))
    &&& h.path_params@ == indices_of(kinds_of(m.params@), ParamKind::Path)
    &&& h.call_args@.len() == m.params@.len()
    &&& forall|i: int|
        0 <= i < m.params@.len() ==> #[trigger] h.call_args@[i] == arg_source(
            kinds_of(m.params@),
            i,
        )
}

/// Plans the handler generated for one method (see [`extraction_order`]
/// and [`arg_source`]).
pub fn generate_axum_handler(m: &MethodSpec) -> (r: HandlerPlan)
    ensures
        handler_matches(r, *m),
{
    let ghost ks = kinds_of(m.params@);
    let path_ix = collect_indices(&m.params, ParamKind::Path);
    let query_ix = collect_indices(&m.params, ParamKind::Query);
    let body_ix = collect_indices(&m.params, ParamKind::Body);
    proof {
        lemma_indices_len(ks, ParamKind::Query);
    }

    let mut extractors: Vec<Extractor> = Vec::new();
    extractors.push(Extractor::State);
    let has_path: usize = if path_ix.len() > 0 {
        extractors.push(Extractor::Path);
        1
    } else {
        0
    };
    let ghost head = extractors@;
    let mut i: usize = 0;
    while i < query_ix.len()
        invariant
            i <= query_ix@.len(),
            extractors@ == head + query_ix@.take(i as int).map_values(|q: usize| Extractor::Query(q)),
        decreases query_ix.len() - i,
    {
        extractors.push(Extractor::Query(query_ix[i]));
        assert(query_ix@.take(i + 1).map_values(|q: usize| Extractor::Query(q))
            =~= query_ix@.take(i as int).map_values(|q: usize| Extractor::Query(q)).push(
            Extractor::Query(query_ix@[i as int]),
        ));
        i = i + 1;
    }
    assert(query_ix@.take(i as int) =~= query_ix@);
    let ghost mid = extractors@;
    let mut i: usize = 0;
    while i < body_ix.len()
        invariant
            i <= body_ix@.len(),
            extractors@ == mid + body_ix@.take(i as int).map_values(|b: usize| Extractor::Body(b)),
        decreases body_ix.len() - i,
    {
        extractors.push(Extractor::Body(body_ix[i]));
        assert(body_ix@.take(i + 1).map_values(|b: usize| Extractor::Body(b))
            =~= body_ix@.take(i as int).map_values(|b: usize| Extractor::Body(b)).push(
            Extractor::Body(body_ix@[i as int]),
        ));
        i = i + 1;
    }
    assert(body_ix@.take(i as int) =~= body_ix@);
    assert(extractors@ =~= extraction_order(ks));

    let n_query = query_ix.len();
    let mut call_args: Vec<ArgSource> = Vec::new();
    let mut path_seen: usize = 0;
    let mut query_seen: usize = 0;
    let mut body_seen: usize = 0;
    let mut j: usize = 0;
    while j < m.params.len()
        invariant
            ks == kinds_of(m.params@),
            j <= m.params@.len(),
            n_query == indices_of(ks, ParamKind::Query).len(),
            n_query <= m.params@.len(),
            has_path == (if indices_of(ks, ParamKind::Path).len() > 0 {
                1usize
            } else {
                0usize
            }),
            path_seen == indices_of(ks.take(j as int), ParamKind::Path).len(),
            query_seen == indices_of(ks.take(j as int), ParamKind::Query).len(),
            body_seen == indices_of(ks.take(j as int), ParamKind::Body).len(),
            path_seen + query_seen + body_seen <= j,
            call_args@.len() == j,
            forall|i: int| 0 <= i < j ==> #[trigger] call_args@[i] == arg_source(ks, i),
        decreases m.params.len() - j,
    {
        proof {
            lemma_indices_step(ks, j as int, ParamKind::Path);
            lemma_indices_step(ks, j as int, ParamKind::Query);
            lemma_indices_step(ks, j as int, ParamKind::Body);
        }
        match m.params[j].kind {
            ParamKind::Path => {
                call_args.push(ArgSource::PathPart(path_seen));
                path_seen = path_seen + 1;
            },
            ParamKind::Query => {
                call_args.push(ArgSource::Extracted(1 + has_path + query_seen));
                query_seen = query_seen + 1;
            },
            ParamKind::Body => {
                proof {
                    lemma_indices_partition(ks);
                    lemma_indices_prefix_of(ks, j + 1, ParamKind::Body);
                }
                call_args.push(ArgSource::Extracted(1 + has_path + n_query + body_seen));
                body_seen = body_seen + 1;
            },
        }
        j = j + 1;
    }

    let mut handler_name = String::from_str("__axum_handler_");
    handler_name.append(m.name.as_str());
    HandlerPlan {
        handler_name,
        method_name: m.name.clone(),
        extractors,
        path_params: path_ix,
        call_args,
    }
}

/// The route entry of one method: its method, its template as the host
/// router takes it, and its handler.
pub open spec fn route_matches(r: RouteEntry, m: MethodSpec) -> bool {
    &&& r.http_method == m.http_method
    &&& r.path@ == m.path@
    &&& r.handler@ == handler_name_of(m.name@)
}

/// The route table: one entry per method, in declaration order, all
/// registered against the one shared service instance.
pub fn generate_router(service: &ServiceSpec) -> (r: Vec<RouteEntry>)
    ensures
        r@.len() == service.methods@.len(),
        forall|i: int|
            0 <= i < r@.len() ==> route_matches(#[trigger] r@[i], service.methods@[i]),
{
    let mut routes: Vec<RouteEntry> = Vec::new();
    let mut i: usize = 0;
    while i < service.methods.len()
        invariant
            i <= service.methods@.len(),
            routes@.len() == i,
            forall|k: int| 0 <= k < i ==> route_matches(#[trigger] routes@[k], service.methods@[k]),
        decreases service.methods.len() - i,
    {
        let m = &service.methods[i];
        let mut handler = String::from_str("__axum_handler_");
        handler.append(m.name.as_str());
        routes.push(
            RouteEntry {
                http_method: m.http_method,
                path: String::from_str(path_to_axum(m.path.as_str())),
                handler,
            },
        );
        i = i + 1;
    }
    routes
}

/// The three-way result a service method returns.
pub enum APIResult<T> {
    Success(T),
    NotFound(String),
    InternalError(String),
}

/// A response as the handler layer produces it: a status code and a JSON body.
#[derive(Debug)]
pub struct HttpResponse {
    pub status: u16,
    pub body: String,
}

/// What serde_json writes for a string value: the string quoted and
/// escaped as JSON, a function of its characters alone.
pub uninterp spec fn json_string_of(s: Seq<char>) -> Seq<char>;

/// Relies on the `Display` of `serde_json::Value`, which writes the compact
/// JSON text of the value; for `Value::String` that is the quoted string.
#[verifier::external_body]
fn json_string(s: &str) -> (r: String)
    ensures
        r@ == json_string_of(s@),
{
    serde_json::Value::String(s.to_string()).to_string()
}

/// The error envelope around an already quoted JSON string.
pub open spec fn envelope_of(quoted: Seq<char>) -> Seq<char> {
    "{\"error\":"@ + quoted + "}"@
}

/// Wraps an already quoted JSON string as `{"error":<quoted>}`.
pub fn error_envelope(quoted: &str) -> (r: String)
    ensures
        r@ == envelope_of(quoted@),
{
    let mut body = String::from_str("{\"error\":");
    body.append(quoted);
    body.append("}");
    body
}

/// The status code each variant maps to.
pub open spec fn status_of<T>(r: APIResult<T>) -> u16 {
    match r {
        APIResult::Success(_) => 200,
        APIResult::NotFound(_) => 404,
        APIResult::InternalError(_) => 500,
    }
}

impl<T> APIResult<T> {
    /// 200 for `Success`, 404 for `NotFound`, 500 for `InternalError`.
    pub fn status_code(&self) -> (r: u16)
        ensures
            r == status_of(*self),
    {
        match self {
            APIResult::Success(_) => 200,
            APIResult::NotFound(_) => 404,
            APIResult::InternalError(_) => 500,
        }
    }
}

impl APIResult<String> {
    /// The response for a result whose success payload is already
    /// serialized as JSON: the payload itself with status 200, or
    /// `{"error":message}` with status 404 or 500.
    pub fn into_response(self) -> (r: HttpResponse)
        ensures
            r.status == status_of(self),
            match self {
                APIResult::Success(payload) => r.body@ == payload@,
                APIResult::NotFound(msg) => r.body@ == envelope_of(json_string_of(msg@)),
                APIResult::InternalError(msg) => r.body@ == envelope_of(json_string_of(msg@)),
            },
    {
        let status = self.status_code();
        let body = match self {
            APIResult::Success(payload) => payload,
            APIResult::NotFound(msg) => error_envelope(json_string(msg.as_str()).as_str()),
            APIResult::InternalError(msg) => error_envelope(json_string(msg.as_str()).as_str()),
        };
        HttpResponse { status, body }
    }
}

proof fn lemma_indices_prefix_of(ks: Seq<ParamKind>, j: int, k: ParamKind)
    requires
        0 <= j <= ks.len(),
    ensures
        indices_of(ks.take(j), k).len() <= indices_of(ks, k).len(),
        indices_of(ks, k).take(indices_of(ks.take(j), k).len() as int) == indices_of(ks.take(j), k),
    decreases ks.len(),
{
    if j < ks.len() {
        let d = ks.drop_last();
        lemma_indices_prefix_of(d, j, k);
        assert(d.take(j) =~= ks.take(j));
        let n = indices_of(ks.take(j), k).len() as int;
        assert(indices_of(ks, k).take(n) =~= indices_of(d, k).take(n));
    } else {
        assert(ks.take(j) =~= ks);
        assert(indices_of(ks, k).take(indices_of(ks, k).len() as int) =~= indices_of(ks, k));
    }
}

proof fn lemma_rank(ks: Seq<ParamKind>, i: int)
    requires
        0 <= i < ks.len(),
        ks.len() <= usize::MAX,
    ensures
        indices_of(ks.take(i), ks[i]).len() < indices_of(ks, ks[i]).len(),
        indices_of(ks, ks[i])[indices_of(ks.take(i), ks[i]).len() as int] == i,
{
    let k = ks[i];
    lemma_indices_step(ks, i, k);
    lemma_indices_prefix_of(ks, i + 1, k);
    let r = indices_of(ks.take(i), k).len() as int;
    assert(indices_of(ks.take(i + 1), k)[r] == i as usize);
    assert(indices_of(ks, k).take(r + 1)[r] == indices_of(ks, k)[r]);
}

/// The handler calls the service method with its arguments in declared
/// order: the value passed for each parameter is the one extracted for
/// that very parameter, whatever the extraction order.
pub proof fn lemma_handler_call_order(h: HandlerPlan, m: MethodSpec)
    requires
        m.params@.len() <= usize::MAX,
        handler_matches(h, m),
    ensures
        forall|i: int|
            0 <= i < m.params@.len() ==> match #[trigger] h.call_args@[i] {
                ArgSource::PathPart(j) => m.params@[i].kind == ParamKind::Path && j
                    < h.path_params@.len() && h.path_params@[j as int] == i,
                ArgSource::Extracted(e) => e < h.extractors@.len() && h.extractors@[e as int]
                    == match m.params@[i].kind {
                    ParamKind::Query => Extractor::Query(i as usize),
                    _ => Extractor::Body(i as usize),
                } && m.params@[i].kind != ParamKind::Path,
            },
{
    let ks = kinds_of(m.params@);
    assert forall|i: int| 0 <= i < m.params@.len() implies match #[trigger] h.call_args@[i] {
        ArgSource::PathPart(j) => m.params@[i].kind == ParamKind::Path && j < h.path_params@.len()
            && h.path_params@[j as int] == i,
        ArgSource::Extracted(e) => e < h.extractors@.len() && h.extractors@[e as int] == match m.params@[i].kind {
            ParamKind::Query => Extractor::Query(i as usize),
            _ => Extractor::Body(i as usize),
        } && m.params@[i].kind != ParamKind::Path,
    } by {
        assert(ks[i] == m.params@[i].kind);
        lemma_rank(ks, i);
        lemma_indices_partition(ks);
        assert(h.call_args@[i] == arg_source(ks, i));
        lemma_indices_len(ks, ParamKind::Query);
        let p = indices_of(ks, ParamKind::Path);
        let q = indices_of(ks, ParamKind::Query);
        let b = indices_of(ks, ParamKind::Body);
        let head: Seq<Extractor> = seq![Extractor::State] + (if p.len() > 0 {
            seq![Extractor::Path]
        } else {
            Seq::empty()
        });
        let qs = q.map_values(|x: usize| Extractor::Query(x));
        let bs = b.map_values(|x: usize| Extractor::Body(x));
        assert(extraction_order(ks) == head + qs + bs);
        if ks[i] == ParamKind::Path {
            assert(p.len() > 0);
            assert(h.path_params@ == p);
        }
        if ks[i] == ParamKind::Query {
            let r = indices_of(ks.take(i), ParamKind::Query).len() as int;
            assert((head + qs + bs)[head.len() + r] == qs[r]);
            assert(qs[r] == Extractor::Query(i as usize));
            assert(h.call_args@[i] == ArgSource::Extracted((head.len() + r) as usize));
        }
        if ks[i] == ParamKind::Body {
            let r = indices_of(ks.take(i), ParamKind::Body).len() as int;
            assert((head + qs + bs)[head.len() + qs.len() + r] == bs[r]);
            assert(bs[r] == Extractor::Body(i as usize));
            assert(h.call_args@[i] == ArgSource::Extracted((head.len() + qs.len() + r) as usize));
        }
    }
}

} // verus!
