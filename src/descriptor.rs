//! The parameter classifier and the method descriptor builder: from a
//! method as declared to a validated [`MethodSpec`].

use vstd::prelude::*;

use crate::model::{
    first_match, is_first, lemma_first_match_at, lemma_first_match_none, method_of_token, texts,
    Attribute, FnParam, GenError, GenErrorView, HttpMethod, ImplFn, MethodSpec, MethodView,
    ParamKind, ParamSpec, ParamView, TypeRef,
};
use crate::model::{indices_of, kinds_of};
use crate::server::collect_indices;
use crate::template::{count_placeholders, placeholders};
use crate::text::{opt_text, str_eq};

verus! {

/// The role that a marker attribute of this name selects.
pub open spec fn role_of_name(n: Seq<char>) -> Option<ParamKind> {
    if n == "body"@ {
        Some(ParamKind::Body)
    } else if n == "path"@ {
        Some(ParamKind::Path)
    } else if n == "query"@ {
        Some(ParamKind::Query)
    } else {
        None
    }
}

/// An attribute that marks a parameter's role.
pub open spec fn role_marker() -> spec_fn(Attribute) -> bool {
    |a: Attribute| role_of_name(a.name@) is Some
}

/// An attribute that is not a role marker.
pub open spec fn not_role_marker() -> spec_fn(Attribute) -> bool {
    |a: Attribute| !role_marker()(a)
}

/// An attribute that is not the exposed-method marker.
pub open spec fn not_handler_marker() -> spec_fn(Attribute) -> bool {
    |a: Attribute| a.name@ != "api_handler"@
}

/// An attribute that marks an exposed method.
pub open spec fn handler_marker() -> spec_fn(Attribute) -> bool {
    |a: Attribute| a.name@ == "api_handler"@
}

/// The role given by the first role marker among `attrs`.
pub open spec fn role_of(attrs: Seq<Attribute>) -> Option<ParamKind> {
    match first_match(attrs, role_marker()) {
        Some(i) => role_of_name(attrs[i].name@),
        None => None,
    }
}

/// A `key = value` argument with this key.
pub open spec fn has_key(key: Seq<char>) -> spec_fn((String, String)) -> bool {
    |kv: (String, String)| kv.0@ == key
}

/// The value of the first `key = value` argument with this key.
pub open spec fn arg_of(args: Seq<(String, String)>, key: Seq<char>) -> Option<Seq<char>> {
    match first_match(args, has_key(key)) {
        Some(i) => Some(args[i].1@),
        None => None,
    }
}

fn role_of_attr_name(n: &str) -> (r: Option<ParamKind>)
    ensures
        r == role_of_name(n@),
{
    if str_eq(n, "body") {
        Some(ParamKind::Body)
    } else if str_eq(n, "path") {
        Some(ParamKind::Path)
    } else if str_eq(n, "query") {
        Some(ParamKind::Query)
    } else {
        None
    }
}

/// The role selected by the first `body`, `path` or `query` marker among
/// a parameter's attributes, if any.
pub fn take_param_attr(attrs: &Vec<Attribute>) -> (r: Option<ParamKind>)
    ensures
        r == role_of(attrs@),
{
    let mut i: usize = 0;
    while i < attrs.len()
        invariant
            i <= attrs@.len(),
            forall|k: int| 0 <= k < i ==> !role_marker()(#[trigger] attrs@[k]),
        decreases attrs.len() - i,
    {
        let r = role_of_attr_name(attrs[i].name.as_str());
        if r.is_some() {
            proof {
                assert(is_first(attrs@, i as int, role_marker()));
                lemma_first_match_at(attrs@, i as int, role_marker());
            }
            return r;
        }
        i = i + 1;
    }
    proof {
        lemma_first_match_none(attrs@, role_marker());
    }
    None
}

/// Removes the `body`, `path` and `query` markers, keeping the other
/// attributes in order.
pub fn strip_helper_attrs(attrs: Vec<Attribute>) -> (r: Vec<Attribute>)
    ensures
        r@ == attrs@.filter(not_role_marker()),
{
    let ghost all = attrs@;
    let total = attrs.len();
    let mut rest = attrs;
    let mut kept: Vec<Attribute> = Vec::new();
    let mut i: usize = 0;
    while rest.len() > 0
        invariant
            i + rest@.len() == all.len(),
            all.len() == total,
            rest@ == all.skip(i as int),
            kept@ == all.take(i as int).filter(not_role_marker()),
        decreases rest.len(),
    {
        let a = rest.remove(0);
        proof {
            assert(all.take(i + 1) =~= all.take(i as int).push(a));
            all.take(i as int).lemma_filter_push(a, not_role_marker());
            assert(all.skip(i + 1) =~= all.skip(i as int).remove(0));
        }
        if role_of_attr_name(a.name.as_str()).is_none() {
            kept.push(a);
        }
        i = i + 1;
    }
    assert(all.take(i as int) =~= all);
    kept
}

/// Removes the `api_handler` marker, keeping the other attributes in order.
pub fn strip_api_handler_attr(attrs: Vec<Attribute>) -> (r: Vec<Attribute>)
    ensures
        r@ == attrs@.filter(not_handler_marker()),
{
    let ghost all = attrs@;
    let total = attrs.len();
    let mut rest = attrs;
    let mut kept: Vec<Attribute> = Vec::new();
    let mut i: usize = 0;
    while rest.len() > 0
        invariant
            i + rest@.len() == all.len(),
            all.len() == total,
            rest@ == all.skip(i as int),
            kept@ == all.take(i as int).filter(not_handler_marker()),
        decreases rest.len(),
    {
        let a = rest.remove(0);
        proof {
            assert(all.take(i + 1) =~= all.take(i as int).push(a));
            all.take(i as int).lemma_filter_push(a, not_handler_marker());
            assert(all.skip(i + 1) =~= all.skip(i as int).remove(0));
        }
        if !str_eq(a.name.as_str(), "api_handler") {
            kept.push(a);
        }
        i = i + 1;
    }
    assert(all.take(i as int) =~= all);
    kept
}

/// What `str::to_uppercase` returns for a string: upper-casing depends on
/// the characters alone.
pub uninterp spec fn upper_of(s: Seq<char>) -> Seq<char>;

/// Relies on `str::to_uppercase`, which upper-cases every character
/// according to Unicode; the method token is folded with it.
#[verifier::external_body]
fn to_upper(s: &str) -> (r: String)
    ensures
        r@ == upper_of(s@),
{
    s.to_uppercase()
}

/// A parameter that carries no role marker.
pub open spec fn unmarked() -> spec_fn(FnParam) -> bool {
    |p: FnParam| role_of(p.attrs@) is None
}

/// The classified form of a marked parameter.
pub open spec fn param_view(p: FnParam) -> ParamView {
    ParamView { name: p.name@, ty: p.ty@, kind: role_of(p.attrs@)->Some_0 }
}

/// The roles of a list of marked parameters.
pub open spec fn marked_kinds(ps: Seq<FnParam>) -> Seq<ParamKind> {
    ps.map_values(|p: FnParam| role_of(p.attrs@)->Some_0)
}

/// What building the descriptor of a declared method yields: nothing for a
/// method without the `api_handler` marker, otherwise the descriptor or the
/// first failure among, in this order, an incomplete marker, an unmarked
/// parameter, a missing result type, an unsupported method token, a path
/// template without one placeholder per Path-role parameter, and more than
/// one Body-role parameter.
pub open spec fn parse_spec(f: ImplFn) -> Result<Option<MethodView>, GenErrorView> {
    match first_match(f.attrs@, handler_marker()) {
        None => Ok(None),
        Some(h) => {
            let args = f.attrs@[h].args@;
            let tok = arg_of(args, "method"@);
            let path = arg_of(args, "path"@);
            if tok is None || path is None {
                Err(GenErrorView::MissingPathOrMethod { method: f.name@ })
            } else {
                match first_match(f.params@, unmarked()) {
                    Some(j) => Err(
                        GenErrorView::MissingRoleAnnotation {
                            method: f.name@,
                            param: f.params@[j].name@,
                        },
                    ),
                    None => match f.output {
                        None => Err(GenErrorView::MissingReturnType { method: f.name@ }),
                        Some(out) => match method_of_token(upper_of(tok->Some_0)) {
                            None => Err(
                                GenErrorView::UnsupportedHttpMethod {
                                    method: f.name@,
                                    token: upper_of(tok->Some_0),
                                },
                            ),
                            Some(m) => if placeholders(path->Some_0) != indices_of(
                                marked_kinds(f.params@),
                                ParamKind::Path,
                            ).len() {
                                Err(GenErrorView::PathPlaceholderMismatch { method: f.name@ })
                            } else if indices_of(marked_kinds(f.params@), ParamKind::Body).len()
                                > 1 {
                                Err(GenErrorView::MultipleBodyParams { method: f.name@ })
                            } else {
                                Ok(
                                Some(
                                    MethodView {
                                        name: f.name@,
                                        visibility: f.visibility@,
                                        http_method: m,
                                        path: path->Some_0,
                                        params: f.params@.map_values(|p: FnParam| param_view(p)),
                                        return_type: out@,
                                    },
                                ),
                            )
                            },
                        },
                    },
                }
            }
        },
    }
}

/// The view of a descriptor-building outcome.
pub open spec fn parse_outcome(r: Result<Option<MethodSpec>, GenError>) -> Result<
    Option<MethodView>,
    GenErrorView,
> {
    match r {
        Ok(Some(m)) => Ok(Some(m@)),
        Ok(None) => Ok(None),
        Err(e) => Err(e@),
    }
}

/// The method named by an upper-case method token, if it is one of the
/// five supported methods.
pub fn http_method_from_token(upper: &str) -> (r: Option<HttpMethod>)
    ensures
        r == method_of_token(upper@),
{
    if str_eq(upper, "GET") {
        Some(HttpMethod::Get)
    } else if str_eq(upper, "POST") {
        Some(HttpMethod::Post)
    } else if str_eq(upper, "PUT") {
        Some(HttpMethod::Put)
    } else if str_eq(upper, "DELETE") {
        Some(HttpMethod::Delete)
    } else if str_eq(upper, "PATCH") {
        Some(HttpMethod::Patch)
    } else {
        None
    }
}

/// The success payload type of a result type: its first generic argument,
/// or the type itself when it has none.
pub fn extract_inner_type(ty: &TypeRef) -> (r: String)
    ensures
        r@ == ty.inner_spec(),
{
    if ty.args.len() > 0 {
        ty.args[0].clone()
    } else {
        ty.path.clone()
    }
}

/// A copy of a list of strings.
pub fn clone_texts(v: &Vec<String>) -> (r: Vec<String>)
    ensures
        texts(r@) == texts(v@),
{
    let mut out: Vec<String> = Vec::new();
    let mut i: usize = 0;
    while i < v.len()
        invariant
            i <= v@.len(),
            out@.len() == i,
            forall|k: int| 0 <= k < i ==> (#[trigger] out@[k])@ == v@[k]@,
        decreases v.len() - i,
    {
        out.push(v[i].clone());
        i = i + 1;
    }
    assert(texts(out@) =~= texts(v@));
    out
}

impl TypeRef {
    /// A copy of this type.
    pub fn duplicate(&self) -> (r: TypeRef)
        ensures
            r@ == self@,
    {
        TypeRef { path: self.path.clone(), args: clone_texts(&self.args) }
    }
}

fn find_handler_attr(attrs: &Vec<Attribute>) -> (r: Option<usize>)
    ensures
        match r {
            Some(i) => first_match(attrs@, handler_marker()) == Some(i as int),
            None => first_match(attrs@, handler_marker()) is None,
        },
{
    let mut i: usize = 0;
    while i < attrs.len()
        invariant
            i <= attrs@.len(),
            forall|k: int| 0 <= k < i ==> !handler_marker()(#[trigger] attrs@[k]),
        decreases attrs.len() - i,
    {
        if str_eq(attrs[i].name.as_str(), "api_handler") {
            proof {
                assert(is_first(attrs@, i as int, handler_marker()));
                lemma_first_match_at(attrs@, i as int, handler_marker());
            }
            return Some(i);
        }
        i = i + 1;
    }
    proof {
        lemma_first_match_none(attrs@, handler_marker());
    }
    None
}

fn arg_value(args: &Vec<(String, String)>, key: &str) -> (r: Option<String>)
    ensures
        opt_text(r) == arg_of(args@, key@),
{
    let mut i: usize = 0;
    while i < args.len()
        invariant
            i <= args@.len(),
            forall|k: int| 0 <= k < i ==> !has_key(key@)(#[trigger] args@[k]),
        decreases args.len() - i,
    {
        if str_eq(args[i].0.as_str(), key) {
            proof {
                assert(is_first(args@, i as int, has_key(key@)));
                lemma_first_match_at(args@, i as int, has_key(key@));
            }
            return Some(args[i].1.clone());
        }
        i = i + 1;
    }
    proof {
        lemma_first_match_none(args@, has_key(key@));
    }
    None
}

/// Builds the descriptor of a declared method: `Ok(None)` when the method
/// carries no `api_handler` marker, the descriptor when it is well formed,
/// and otherwise the first failure (see [`parse_spec`]).
pub fn parse_handler(f: &ImplFn) -> (r: Result<Option<MethodSpec>, GenError>)
    ensures
        parse_outcome(r) == parse_spec(*f),
        r matches Ok(Some(m)) ==> m.wf(),
{
    let h = match find_handler_attr(&f.attrs) {
        None => return Ok(None),
        Some(h) => h,
    };
    let tok = arg_value(&f.attrs[h].args, "method");
    let path = arg_value(&f.attrs[h].args, "path");
    if tok.is_none() || path.is_none() {
        return Err(GenError::MissingPathOrMethod { method: f.name.clone() });
    }
    let tok = tok.unwrap();
    let path = path.unwrap();

    let mut params: Vec<ParamSpec> = Vec::new();
    let mut j: usize = 0;
    while j < f.params.len()
        invariant
            h < f.attrs@.len(),
            first_match(f.attrs@, handler_marker()) == Some(h as int),
            arg_of(f.attrs@[h as int].args@, "method"@) == Some(tok@),
            arg_of(f.attrs@[h as int].args@, "path"@) == Some(path@),
            j <= f.params@.len(),
            params@.len() == j,
            forall|k: int| 0 <= k < j ==> !unmarked()(#[trigger] f.params@[k]),
            forall|k: int| 0 <= k < j ==> (#[trigger] params@[k])@ == param_view(f.params@[k]),
        decreases f.params.len() - j,
    {
        let p = &f.params[j];
        match take_param_attr(&p.attrs) {
            None => {
                proof {
                    assert(is_first(f.params@, j as int, unmarked()));
                    lemma_first_match_at(f.params@, j as int, unmarked());
                }
                return Err(
                    GenError::MissingRoleAnnotation { method: f.name.clone(), param: p.name.clone() },
                );
            },
            Some(kind) => {
                params.push(ParamSpec { name: p.name.clone(), ty: p.ty.clone(), kind });
            },
        }
        j = j + 1;
    }
    proof {
        lemma_first_match_none(f.params@, unmarked());
    }
    let return_type = match &f.output {
        None => return Err(GenError::MissingReturnType { method: f.name.clone() }),
        Some(t) => t.duplicate(),
    };
    let upper = to_upper(tok.as_str());
    let http_method = match http_method_from_token(upper.as_str()) {
        None => return Err(GenError::UnsupportedHttpMethod { method: f.name.clone(), token: upper }),
        Some(m) => m,
    };
    proof {
        assert(kinds_of(params@) =~= marked_kinds(f.params@));
    }
    let path_ix = collect_indices(&params, ParamKind::Path);
    let body_ix = collect_indices(&params, ParamKind::Body);
    if count_placeholders(path.as_str()) != path_ix.len() {
        return Err(GenError::PathPlaceholderMismatch { method: f.name.clone() });
    }
    if body_ix.len() > 1 {
        return Err(GenError::MultipleBodyParams { method: f.name.clone() });
    }
    let m = MethodSpec {
        name: f.name.clone(),
        visibility: f.visibility.clone(),
        http_method,
        path,
        params,
        return_type,
    };
    assert(m@.params =~= f.params@.map_values(|p: FnParam| param_view(p)));
    Ok(Some(m))
}

} // verus!
