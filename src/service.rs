//! The service descriptor builder and the expansion of a whole service
//! definition into its cleaned items and both bindings.

use vstd::prelude::*;

use crate::client::{client_method_matches, generate_client, ClientBinding, ClientMethod};
use crate::descriptor::{
    arg_of, handler_marker, not_handler_marker, not_role_marker, parse_handler, parse_spec,
    strip_api_handler_attr, strip_helper_attrs, upper_of,
};
use crate::model::{
    first_match, indices_of, kinds_of, method_of_token, FnParam, GenError, GenErrorView, ImplFn,
    ImplItem, MethodSpec, MethodView, ParamKind, ServiceSpec,
};
use crate::server::{
    generate_axum_handler, generate_router, handler_matches, route_matches, HandlerPlan, RouteEntry,
};
use crate::template::{fill, interleave, lemma_fill_in_order, literals, placeholders};

verus! {

/// The descriptors of the exposed methods among `items`, in declaration
/// order, or the first failure among them.
pub open spec fn expand_spec(items: Seq<ImplItem>) -> Result<Seq<MethodView>, GenErrorView>
    decreases items.len(),
{
    if items.len() == 0 {
        Ok(Seq::empty())
    } else {
        match expand_spec(items.drop_last()) {
            Err(e) => Err(e),
            Ok(ms) => match items.last() {
                ImplItem::Fn(f) => match parse_spec(f) {
                    Err(e) => Err(e),
                    Ok(None) => Ok(ms),
                    Ok(Some(m)) => Ok(ms.push(m)),
                },
                ImplItem::Other(_) => Ok(ms),
            },
        }
    }
}

/// `g` is `f` with the exposed-method marker and the role markers removed.
pub open spec fn cleaned_fn(f: ImplFn, g: ImplFn) -> bool {
    &&& g.name == f.name
    &&& g.visibility == f.visibility
    &&& g.output == f.output
    &&& g.attrs@ == f.attrs@.filter(not_handler_marker())
    &&& g.params@.len() == f.params@.len()
    &&& forall|i: int|
        0 <= i < f.params@.len() ==> {
            &&& (#[trigger] g.params@[i]).name == f.params@[i].name
            &&& g.params@[i].ty == f.params@[i].ty
            &&& g.params@[i].attrs@ == f.params@[i].attrs@.filter(not_role_marker())
        }
}

/// The item as it stays in the service's impl block: an exposed method
/// loses its markers, everything else is left untouched.
pub open spec fn cleaned_item(orig: ImplItem, new: ImplItem) -> bool {
    match orig {
        ImplItem::Fn(f) => if first_match(f.attrs@, handler_marker()) is Some {
            new is Fn && cleaned_fn(f, new->Fn_0)
        } else {
            new == orig
        },
        ImplItem::Other(_) => new == orig,
    }
}

/// Removes the markers from a method and its parameters.
pub fn clean_fn(f: ImplFn) -> (r: ImplFn)
    ensures
        cleaned_fn(f, r),
{
    let ImplFn { name, visibility, attrs, params, output } = f;
    let ghost all = params@;
    let total = params.len();
    let mut rest = params;
    let mut cleaned: Vec<FnParam> = Vec::new();
    let mut i: usize = 0;
    while rest.len() > 0
        invariant
            i + rest@.len() == all.len(),
            all.len() == total,
            rest@ == all.skip(i as int),
            cleaned@.len() == i,
            forall|k: int|
                0 <= k < i ==> {
                    &&& (#[trigger] cleaned@[k]).name == all[k].name
                    &&& cleaned@[k].ty == all[k].ty
                    &&& cleaned@[k].attrs@ == all[k].attrs@.filter(not_role_marker())
                },
        decreases rest.len(),
    {
        let p = rest.remove(0);
        assert(all.skip(i + 1) =~= all.skip(i as int).remove(0));
        let FnParam { name: pname, ty, attrs: pattrs } = p;
        cleaned.push(FnParam { name: pname, ty, attrs: strip_helper_attrs(pattrs) });
        i = i + 1;
    }
    ImplFn { name, visibility, attrs: strip_api_handler_attr(attrs), params: cleaned, output }
}

/// Everything generated for one service.
#[derive(Debug)]
pub struct ApiExpansion {
    /// The impl block's items, exposed methods without their markers.
    pub items: Vec<ImplItem>,
    /// The descriptors of the exposed methods.
    pub service: ServiceSpec,
    /// One handler per exposed method, in declaration order.
    pub handlers: Vec<HandlerPlan>,
    /// One route per exposed method, in declaration order.
    pub routes: Vec<RouteEntry>,
    /// The typed client.
    pub client: ClientBinding,
}

/// The views of a list of descriptors.
pub open spec fn method_views(ms: Seq<MethodSpec>) -> Seq<MethodView> {
    ms.map_values(|m: MethodSpec| m@)
}

proof fn lemma_expand_err_stays(items: Seq<ImplItem>, i: int, e: GenErrorView)
    requires
        0 <= i <= items.len(),
        expand_spec(items.take(i)) == Err::<Seq<MethodView>, GenErrorView>(e),
    ensures
        expand_spec(items) == Err::<Seq<MethodView>, GenErrorView>(e),
    decreases items.len(),
{
    if i < items.len() {
        assert(items.drop_last().take(i) =~= items.take(i));
        lemma_expand_err_stays(items.drop_last(), i, e);
    } else {
        assert(items.take(i) =~= items);
    }
}

/// Expands a service definition: builds the descriptor of every method
/// carrying the `api_handler` marker (the others are left out of it), and
/// from that one descriptor both the server binding (handlers and route
/// table) and the client binding. Fails with the first failure among the
/// methods, in declaration order; then nothing is generated.
pub fn api(service_name: String, items: Vec<ImplItem>) -> (r: Result<ApiExpansion, GenError>)
    ensures
        r is Ok <==> expand_spec(items@) is Ok,
        r is Err ==> r->Err_0@ == expand_spec(items@)->Err_0,
        r is Ok ==> {
            let x = r->Ok_0;
            &&& x.service.service_name == service_name
            &&& method_views(x.service.methods@) == expand_spec(items@)->Ok_0
            &&& forall|i: int| 0 <= i < x.service.methods@.len() ==> (#[trigger] x.service.methods@[i]).wf()
            &&& x.items@.len() == items@.len()
            &&& forall|i: int|
                0 <= i < items@.len() ==> cleaned_item(items@[i], #[trigger] x.items@[i])
            &&& x.handlers@.len() == x.service.methods@.len()
            &&& forall|i: int|
                0 <= i < x.handlers@.len() ==> handler_matches(
                    #[trigger] x.handlers@[i],
                    x.service.methods@[i],
                )
            &&& x.routes@.len() == x.service.methods@.len()
            &&& forall|i: int|
                0 <= i < x.routes@.len() ==> route_matches(
                    #[trigger] x.routes@[i],
                    x.service.methods@[i],
                )
            &&& x.client.client_name@ == service_name@ + "Client"@
            &&& x.client.error_name@ == service_name@ + "ClientError"@
            &&& x.client.methods@.len() == x.service.methods@.len()
            &&& forall|i: int|
                0 <= i < x.client.methods@.len() ==> client_method_matches(
                    #[trigger] x.client.methods@[i],
                    x.service.methods@[i],
                )
        },
{
    let ghost all = items@;
    let total = items.len();
    let mut rest = items;
    let mut kept: Vec<ImplItem> = Vec::new();
    let mut methods: Vec<MethodSpec> = Vec::new();
    let mut i: usize = 0;
    assert(all.take(0) =~= Seq::<ImplItem>::empty());
    assert(method_views(methods@) =~= Seq::<MethodView>::empty());
    while rest.len() > 0
        invariant
            all == items@,
            i + rest@.len() == all.len(),
            all.len() == total,
            rest@ == all.skip(i as int),
            expand_spec(all.take(i as int)) == Ok::<Seq<MethodView>, GenErrorView>(
                method_views(methods@),
            ),
            kept@.len() == i,
            forall|k: int| 0 <= k < i ==> cleaned_item(all[k], #[trigger] kept@[k]),
            forall|k: int| 0 <= k < methods@.len() ==> (#[trigger] methods@[k]).wf(),
        decreases rest.len(),
    {
        let item = rest.remove(0);
        proof {
            assert(all.skip(i + 1) =~= all.skip(i as int).remove(0));
            assert(all.take(i + 1).drop_last() =~= all.take(i as int));
            assert(all.take(i + 1).last() == item);
        }
        match item {
            ImplItem::Fn(f) => {
                let parsed = parse_handler(&f);
                match parsed {
                    Err(e) => {
                        proof {
                            assert(parse_spec(f) == Err::<Option<MethodView>, GenErrorView>(e@));
                            assert(expand_spec(all.take(i + 1)) == Err::<Seq<MethodView>, GenErrorView>(e@));
                            lemma_expand_err_stays(all, i + 1, e@);
                        }
                        return Err(e);
                    },
                    Ok(None) => {
                        kept.push(ImplItem::Fn(f));
                    },
                    Ok(Some(m)) => {
                        proof {
                            assert(method_views(methods@.push(m)) =~= method_views(methods@).push(m@));
                        }
                        methods.push(m);
                        kept.push(ImplItem::Fn(clean_fn(f)));
                    },
                }
            },
            ImplItem::Other(t) => {
                kept.push(ImplItem::Other(t));
            },
        }
        i = i + 1;
    }
    assert(all.take(i as int) =~= all);
    let service = ServiceSpec { service_name, methods };

    let mut handlers: Vec<HandlerPlan> = Vec::new();
    let mut j: usize = 0;
    while j < service.methods.len()
        invariant
            j <= service.methods@.len(),
            handlers@.len() == j,
            forall|k: int| 0 <= k < j ==> handler_matches(#[trigger] handlers@[k], service.methods@[k]),
        decreases service.methods.len() - j,
    {
        handlers.push(generate_axum_handler(&service.methods[j]));
        j = j + 1;
    }
    let routes = generate_router(&service);
    let client = generate_client(&service);
    Ok(ApiExpansion { items: kept, service, handlers, routes, client })
}

/// For a built descriptor with k Path-role parameters (its template then
/// holds one placeholder for each): the route registered for it carries a template
/// with exactly k placeholders, the client substitutes exactly k arguments,
/// taken in declaration order, and the i-th of them lands where the i-th
/// placeholder stood, between the same literal pieces of the template.
pub proof fn lemma_path_placeholders_in_order(
    m: MethodSpec,
    route: RouteEntry,
    call: ClientMethod,
    vals: Seq<Seq<char>>,
)
    requires
        m.params@.len() <= usize::MAX,
        route_matches(route, m),
        client_method_matches(call, m),
        m.wf(),
        vals.len() == call.path_args@.len(),
    ensures
        placeholders(route.path@) == call.path_args@.len(),
        call.path_args@ == indices_of(kinds_of(m.params@), ParamKind::Path),
        forall|j: int|
            0 <= j < call.path_args@.len() ==> m.params@[#[trigger] call.path_args@[j] as int].kind
                == ParamKind::Path,
        forall|j: int, l: int|
            0 <= j < l < call.path_args@.len() ==> #[trigger] call.path_args@[j] < #[trigger] call.path_args@[l],
        literals(call.path@).len() == vals.len() + 1,
        fill(call.path@, vals) == interleave(literals(m.path@), vals),
{
    lemma_fill_in_order(m.path@, vals);
    lemma_indices_sorted(kinds_of(m.params@), ParamKind::Path);
}

proof fn lemma_indices_sorted(ks: Seq<ParamKind>, k: ParamKind)
    requires
        ks.len() <= usize::MAX,
    ensures
        forall|j: int|
            0 <= j < indices_of(ks, k).len() ==> {
                &&& #[trigger] indices_of(ks, k)[j] < ks.len()
                &&& ks[indices_of(ks, k)[j] as int] == k
            },
        forall|j: int, l: int|
            0 <= j < l < indices_of(ks, k).len() ==> #[trigger] indices_of(ks, k)[j]
                < #[trigger] indices_of(ks, k)[l],
    decreases ks.len(),
{
    if ks.len() > 0 {
        let d = ks.drop_last();
        lemma_indices_sorted(d, k);
        let before = indices_of(d, k);
        let all = indices_of(ks, k);
        assert forall|j: int| 0 <= j < before.len() implies before[j] < ks.len() - 1 && ks[
            before[j] as int] == k by {
            assert(d[before[j] as int] == ks[before[j] as int]);
        }
        if ks.last() == k {
            assert(all == before.push((ks.len() - 1) as usize));
            assert forall|j: int| 0 <= j < all.len() implies #[trigger] all[j] < ks.len() && ks[all[j] as int]
                == k by {
                if j < before.len() {
                    assert(all[j] == before[j]);
                }
            }
            assert forall|j: int, l: int| 0 <= j < l < all.len() implies #[trigger] all[j]
                < #[trigger] all[l] by {
                assert(all[j] == before[j]);
                if l < before.len() {
                    assert(all[l] == before[l]);
                }
            }
        } else {
            assert(all == before);
        }
    }
}

/// A method whose marker names a method token outside the five supported
/// ones (`TRACE`, say) makes the whole expansion fail: no binding at all is
/// generated for the service.
pub proof fn lemma_unsupported_method_rejected(items: Seq<ImplItem>, i: int)
    requires
        0 <= i < items.len(),
        items[i] is Fn,
        ({
            let f = items[i]->Fn_0;
            match first_match(f.attrs@, handler_marker()) {
                Some(h) => match arg_of(f.attrs@[h].args@, "method"@) {
                    Some(tok) => method_of_token(upper_of(tok)) is None,
                    None => false,
                },
                None => false,
            }
        }),
    ensures
        expand_spec(items) is Err,
{
    let t = items.take(i + 1);
    assert(t.drop_last() =~= items.take(i));
    assert(t.last() == items[i]);
    assert(expand_spec(t) is Err);
    lemma_expand_err_stays(items, i + 1, expand_spec(t)->Err_0);
}

} // verus!
