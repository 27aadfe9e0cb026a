//! The intermediate model shared by both generation passes: parameter
//! roles, method and service descriptors, and the generation-time errors.

use vstd::prelude::*;

use crate::template::placeholders;

verus! {

/// How a handler parameter travels over the wire.
#[derive(Debug, Clone, Copy, PartialEq, Eq, Structural)]
pub enum ParamKind {
    /// Decoded from the JSON request payload.
    Body,
    /// Taken from a `{name}` placeholder of the path.
    Path,
    /// Decoded from the URL query string.
    Query,
}

/// The five request methods a handler may be bound to.
#[derive(Debug, Clone, Copy, PartialEq, Eq, Structural)]
pub enum HttpMethod {
    Get,
    Post,
    Put,
    Delete,
    Patch,
}

/// A type as written in a signature: a path with at most one level of
/// generic arguments, each kept as source text (`MyResult<Option<User>>`
/// is the path `MyResult` with the single argument `Option<User>`).
#[derive(Debug)]
pub struct TypeRef {
    pub path: String,
    pub args: Vec<String>,
}

/// An attribute on a method or a parameter: its name and, for a
/// `name(key = "value", ..)` attribute, its key/value arguments.
#[derive(Debug)]
pub struct Attribute {
    pub name: String,
    pub args: Vec<(String, String)>,
}

/// One parameter of a service method, receiver excluded.
#[derive(Debug)]
pub struct FnParam {
    pub name: String,
    pub ty: String,
    pub attrs: Vec<Attribute>,
}

/// A method of the service's impl block, as declared.
#[derive(Debug)]
pub struct ImplFn {
    pub name: String,
    pub visibility: String,
    pub attrs: Vec<Attribute>,
    pub params: Vec<FnParam>,
    pub output: Option<TypeRef>,
}

/// An item of the service's impl block.
#[derive(Debug)]
pub enum ImplItem {
    Fn(ImplFn),
    /// Any other item (a constant, an associated type), kept as source text.
    Other(String),
}

/// A classified parameter.
#[derive(Debug)]
pub struct ParamSpec {
    pub name: String,
    pub ty: String,
    pub kind: ParamKind,
}

/// A validated description of one exposed method.
#[derive(Debug)]
pub struct MethodSpec {
    pub name: String,
    pub visibility: String,
    pub http_method: HttpMethod,
    pub path: String,
    pub params: Vec<ParamSpec>,
    pub return_type: TypeRef,
}

/// All exposed methods of one service, in declaration order.
#[derive(Debug)]
pub struct ServiceSpec {
    pub service_name: String,
    pub methods: Vec<MethodSpec>,
}

/// Why a service definition cannot be turned into bindings.
#[derive(Debug)]
pub enum GenError {
    /// A parameter carries none of the `body`, `path`, `query` markers.
    MissingRoleAnnotation { method: String, param: String },
    /// The `api_handler` marker lacks its `method` or its `path`.
    MissingPathOrMethod { method: String },
    /// The method token, once upper-cased, is not one of the five methods.
    UnsupportedHttpMethod { method: String, token: String },
    /// The method declares no result type.
    MissingReturnType { method: String },
    /// The path template does not hold one placeholder per Path-role parameter.
    PathPlaceholderMismatch { method: String },
    /// More than one parameter carries the `body` marker.
    MultipleBodyParams { method: String },
}

/// The contents of a [`TypeRef`].
pub struct TypeView {
    pub path: Seq<char>,
    pub args: Seq<Seq<char>>,
}

/// The contents of a [`ParamSpec`].
pub struct ParamView {
    pub name: Seq<char>,
    pub ty: Seq<char>,
    pub kind: ParamKind,
}

/// The contents of a [`MethodSpec`].
pub struct MethodView {
    pub name: Seq<char>,
    pub visibility: Seq<char>,
    pub http_method: HttpMethod,
    pub path: Seq<char>,
    pub params: Seq<ParamView>,
    pub return_type: TypeView,
}

/// The contents of a [`GenError`].
pub enum GenErrorView {
    MissingRoleAnnotation { method: Seq<char>, param: Seq<char> },
    MissingPathOrMethod { method: Seq<char> },
    UnsupportedHttpMethod { method: Seq<char>, token: Seq<char> },
    MissingReturnType { method: Seq<char> },
    PathPlaceholderMismatch { method: Seq<char> },
    MultipleBodyParams { method: Seq<char> },
}

/// The text of each string of a sequence.
pub open spec fn texts(v: Seq<String>) -> Seq<Seq<char>> {
    v.map_values(|s: String| s@)
}

impl View for TypeRef {
    type V = TypeView;

    open spec fn view(&self) -> TypeView {
        TypeView { path: self.path@, args: texts(self.args@) }
    }
}

impl View for ParamSpec {
    type V = ParamView;

    open spec fn view(&self) -> ParamView {
        ParamView { name: self.name@, ty: self.ty@, kind: self.kind }
    }
}

impl View for MethodSpec {
    type V = MethodView;

    open spec fn view(&self) -> MethodView {
        MethodView {
            name: self.name@,
            visibility: self.visibility@,
            http_method: self.http_method,
            path: self.path@,
            params: self.params@.map_values(|p: ParamSpec| p@),
            return_type: self.return_type@,
        }
    }
}

impl View for GenError {
    type V = GenErrorView;

    open spec fn view(&self) -> GenErrorView {
        match self {
            GenError::MissingRoleAnnotation { method, param } => GenErrorView::MissingRoleAnnotation {
                method: method@,
                param: param@,
            },
            GenError::MissingPathOrMethod { method } => GenErrorView::MissingPathOrMethod {
                method: method@,
            },
            GenError::UnsupportedHttpMethod { method, token } => GenErrorView::UnsupportedHttpMethod {
                method: method@,
                token: token@,
            },
            GenError::MissingReturnType { method } => GenErrorView::MissingReturnType {
                method: method@,
            },
            GenError::PathPlaceholderMismatch { method } => GenErrorView::PathPlaceholderMismatch {
                method: method@,
            },
            GenError::MultipleBodyParams { method } => GenErrorView::MultipleBodyParams {
                method: method@,
            },
        }
    }
}

/// `i` is the first position of `s` whose element satisfies `p`.
pub open spec fn is_first<A>(s: Seq<A>, i: int, p: spec_fn(A) -> bool) -> bool {
    &&& 0 <= i < s.len()
    &&& p(s[i])
    &&& forall|k: int| 0 <= k < i ==> !p(#[trigger] s[k])
}

/// The first position of `s` whose element satisfies `p`, if any.
pub open spec fn first_match<A>(s: Seq<A>, p: spec_fn(A) -> bool) -> Option<int> {
    if exists|i: int| is_first(s, i, p) {
        Some(choose|i: int| is_first(s, i, p))
    } else {
        None
    }
}

pub proof fn lemma_first_match_at<A>(s: Seq<A>, i: int, p: spec_fn(A) -> bool)
    requires
        is_first(s, i, p),
    ensures
        first_match(s, p) == Some(i),
{
    let j = choose|j: int| is_first(s, j, p);
    assert(is_first(s, j, p));
    if j < i {
        assert(!p(s[j]));
    } else if j > i {
        assert(!p(s[i]));
    }
}

pub proof fn lemma_first_match_none<A>(s: Seq<A>, p: spec_fn(A) -> bool)
    requires
        forall|k: int| 0 <= k < s.len() ==> !p(#[trigger] s[k]),
    ensures
        first_match(s, p) is None,
{
    if exists|i: int| is_first(s, i, p) {
        let j = choose|j: int| is_first(s, j, p);
        assert(!p(s[j]));
    }
}

/// The roles of a parameter list, in order.
pub open spec fn kinds_of(ps: Seq<ParamSpec>) -> Seq<ParamKind> {
    ps.map_values(|p: ParamSpec| p.kind)
}

/// The positions, in increasing order, of the entries of `ks` equal to `k`.
pub open spec fn indices_of(ks: Seq<ParamKind>, k: ParamKind) -> Seq<usize>
    decreases ks.len(),
{
    if ks.len() == 0 {
        Seq::empty()
    } else {
        let before = indices_of(ks.drop_last(), k);
        if ks.last() == k {
            before.push((ks.len() - 1) as usize)
        } else {
            before
        }
    }
}

/// The method named by an upper-case token, if it is one of the five.
pub open spec fn method_of_token(t: Seq<char>) -> Option<HttpMethod> {
    if t == "GET"@ {
        Some(HttpMethod::Get)
    } else if t == "POST"@ {
        Some(HttpMethod::Post)
    } else if t == "PUT"@ {
        Some(HttpMethod::Put)
    } else if t == "DELETE"@ {
        Some(HttpMethod::Delete)
    } else if t == "PATCH"@ {
        Some(HttpMethod::Patch)
    } else {
        None
    }
}

/// The arity rules both bindings rely on: one path placeholder per
/// Path-role parameter, and at most one Body-role parameter.
pub open spec fn arity_ok(path: Seq<char>, ks: Seq<ParamKind>) -> bool {
    &&& placeholders(path) == indices_of(ks, ParamKind::Path).len()
    &&& indices_of(ks, ParamKind::Body).len() <= 1
}

impl MethodSpec {
    /// The descriptor obeys the arity rules.
    pub open spec fn wf(&self) -> bool {
        arity_ok(self.path@, kinds_of(self.params@))
    }
}

impl TypeRef {
    /// The success payload type: the first generic argument, or the type
    /// itself when it has none.
    pub open spec fn inner_spec(&self) -> Seq<char> {
        if self.args.len() > 0 {
            self.args[0]@
        } else {
            self.path@
        }
    }
}

} // verus!
