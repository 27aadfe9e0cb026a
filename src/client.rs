//! The client binding pass: per method a typed call description, one
//! shared error type per service, and the pieces each call runs: request
//! URL construction, query encoding and the response check.

use vstd::prelude::*;

use crate::descriptor::extract_inner_type;
use crate::model::{indices_of, kinds_of, texts, HttpMethod, MethodSpec, ParamKind, ServiceSpec};
use crate::template::{fill, fill_path};
use crate::text::{opt_text, str_eq};

verus! {

/// The error a generated client call returns.
#[derive(Debug)]
pub enum ClientError {
    /// The request could not be built, sent or its answer decoded.
    Request { cause: String },
    /// The server answered with a status outside the success range.
    Api { status: u16, body: String },
}

/// One field of a Query-role value: its name and, when present, its text.
#[derive(Debug)]
pub struct QueryField {
    pub name: String,
    pub value: Option<String>,
}

/// The view of a list of key/value pairs.
pub open spec fn pair_texts(ps: Seq<(String, String)>) -> Seq<(Seq<char>, Seq<char>)> {
    ps.map_values(|p: (String, String)| (p.0@, p.1@))
}

/// The pairs a Query-role value is written as: one per present field, in
/// field order; an absent field writes nothing.
pub open spec fn present_pairs(fs: Seq<QueryField>) -> Seq<(Seq<char>, Seq<char>)>
    decreases fs.len(),
{
    if fs.len() == 0 {
        Seq::empty()
    } else {
        let before = present_pairs(fs.drop_last());
        match fs.last().value {
            Some(v) => before.push((fs.last().name@, v@)),
            None => before,
        }
    }
}

/// The value of the first pair with this key, if any.
pub open spec fn lookup(ps: Seq<(Seq<char>, Seq<char>)>, key: Seq<char>) -> Option<Seq<char>>
    decreases ps.len(),
{
    if ps.len() == 0 {
        None
    } else if ps[0].0 == key {
        Some(ps[0].1)
    } else {
        lookup(ps.drop_first(), key)
    }
}

/// The pairs that encode a Query-role value (see [`present_pairs`]).
pub fn query_pairs(fields: &Vec<QueryField>) -> (r: Vec<(String, String)>)
    ensures
        pair_texts(r@) == present_pairs(fields@),
{
    let mut out: Vec<(String, String)> = Vec::new();
    let mut i: usize = 0;
    while i < fields.len()
        invariant
            i <= fields@.len(),
            pair_texts(out@) == present_pairs(fields@.take(i as int)),
        decreases fields.len() - i,
    {
        proof {
            assert(fields@.take(i + 1).drop_last() =~= fields@.take(i as int));
        }
        match &fields[i].value {
            Some(v) => {
                let ghost before = out@;
                out.push((fields[i].name.clone(), v.clone()));
                assert(pair_texts(out@) =~= pair_texts(before).push((fields@[i as int].name@, v@)));
            },
            None => {},
        }
        i = i + 1;
    }
    assert(fields@.take(i as int) =~= fields@);
    out
}

/// The value of the first pair with this key, if any.
pub fn lookup_pair(pairs: &Vec<(String, String)>, key: &str) -> (r: Option<String>)
    ensures
        opt_text(r) == lookup(pair_texts(pairs@), key@),
{
    let ghost ps = pair_texts(pairs@);
    let mut i: usize = 0;
    assert(ps.skip(0) =~= ps);
    while i < pairs.len()
        invariant
            i <= pairs@.len(),
            ps == pair_texts(pairs@),
            lookup(ps.skip(i as int), key@) == lookup(ps, key@),
        decreases pairs.len() - i,
    {
        proof {
            assert(ps.skip(i as int).drop_first() =~= ps.skip(i + 1));
        }
        if str_eq(pairs[i].0.as_str(), key) {
            return Some(pairs[i].1.clone());
        }
        i = i + 1;
    }
    None
}

/// How many pairs have this key.
pub open spec fn key_count(ps: Seq<(Seq<char>, Seq<char>)>, key: Seq<char>) -> nat
    decreases ps.len(),
{
    if ps.len() == 0 {
        0
    } else {
        (if ps.last().0 == key {
            1nat
        } else {
            0nat
        }) + key_count(ps.drop_last(), key)
    }
}

/// The fields of a Query-role value read from its pairs, as a derived
/// struct decoding reads them: a field named by two pairs or more is
/// rejected (`None`); otherwise each field takes the value of the pair with
/// its name, and `None` when there is none. Pairs of other keys are ignored.
pub open spec fn decode_fields(ps: Seq<(Seq<char>, Seq<char>)>, names: Seq<Seq<char>>) -> Option<
    Seq<Option<Seq<char>>>,
> {
    if exists|i: int| 0 <= i < names.len() && key_count(ps, #[trigger] names[i]) > 1 {
        None
    } else {
        Some(names.map_values(|n: Seq<char>| lookup(ps, n)))
    }
}

/// The views of a list of optional strings.
pub open spec fn opt_texts(v: Seq<Option<String>>) -> Seq<Option<Seq<char>>> {
    v.map_values(|o: Option<String>| opt_text(o))
}

fn count_key(pairs: &Vec<(String, String)>, key: &str) -> (r: usize)
    ensures
        r == key_count(pair_texts(pairs@), key@),
{
    let ghost ps = pair_texts(pairs@);
    let mut n: usize = 0;
    let mut i: usize = 0;
    while i < pairs.len()
        invariant
            i <= pairs@.len(),
            ps == pair_texts(pairs@),
            n <= i,
            n == key_count(ps.take(i as int), key@),
        decreases pairs.len() - i,
    {
        proof {
            assert(ps.take(i + 1).drop_last() =~= ps.take(i as int));
        }
        if str_eq(pairs[i].0.as_str(), key) {
            n = n + 1;
        }
        i = i + 1;
    }
    assert(ps.take(i as int) =~= ps);
    n
}

/// The fields of a Query-role value read back from its pairs (see
/// [`decode_fields`]).
pub fn fields_from_pairs(names: &Vec<String>, pairs: &Vec<(String, String)>) -> (r: Option<
    Vec<Option<String>>,
>)
    ensures
        match r {
            Some(v) => decode_fields(pair_texts(pairs@), texts(names@)) == Some(opt_texts(v@)),
            None => decode_fields(pair_texts(pairs@), texts(names@)) is None,
        },
{
    let ghost ps = pair_texts(pairs@);
    let ghost ns = texts(names@);
    let mut out: Vec<Option<String>> = Vec::new();
    let mut i: usize = 0;
    while i < names.len()
        invariant
            i <= names@.len(),
            ps == pair_texts(pairs@),
            ns == texts(names@),
            out@.len() == i,
            forall|k: int| 0 <= k < i ==> key_count(ps, #[trigger] ns[k]) <= 1,
            forall|k: int| 0 <= k < i ==> opt_text(#[trigger] out@[k]) == lookup(ps, ns[k]),
        decreases names.len() - i,
    {
        if count_key(pairs, names[i].as_str()) > 1 {
            assert(key_count(ps, ns[i as int]) > 1);
            return None;
        }
        out.push(lookup_pair(pairs, names[i].as_str()));
        i = i + 1;
    }
    assert(opt_texts(out@) =~= ns.map_values(|n: Seq<char>| lookup(ps, n)));
    Some(out)
}

/// What `serde_urlencoded::to_string` writes for a list of key/value
/// pairs: the form encoding, a function of the pairs alone.
pub uninterp spec fn form_encoded_of(pairs: Seq<(Seq<char>, Seq<char>)>) -> Seq<char>;

/// What `serde_urlencoded::from_str` reads from a text as a list of
/// key/value pairs; a function of the text alone.
pub uninterp spec fn form_decoded_of(s: Seq<char>) -> Seq<(Seq<char>, Seq<char>)>;

/// Relies on `serde_urlencoded::to_string`, which form-encodes a sequence
/// of pairs; a pair of strings has no error path.
#[verifier::external_body]
fn form_encode(pairs: &Vec<(String, String)>) -> (r: Result<String, serde_urlencoded::ser::Error>)
    ensures
        r is Ok,
        r is Ok ==> r->Ok_0@ == form_encoded_of(pair_texts(pairs@)),
{
    serde_urlencoded::to_string(pairs)
}

/// Relies on `serde_urlencoded::from_str`, which decodes a form-encoded
/// text into its sequence of pairs; into string pairs it never fails.
#[verifier::external_body]
fn form_decode(s: &str) -> (r: Result<Vec<(String, String)>, serde_urlencoded::de::Error>)
    ensures
        r is Ok,
        r is Ok ==> pair_texts(r->Ok_0@) == form_decoded_of(s@),
{
    serde_urlencoded::from_str::<Vec<(String, String)>>(s)
}

#[verifier::external_type_specification]
#[verifier::external_body]
pub struct ExFormSerError(serde_urlencoded::ser::Error);

#[verifier::external_type_specification]
#[verifier::external_body]
pub struct ExFormDeError(serde_urlencoded::de::Error);

/// The pairs of all Query-role values of a call, one value after the other.
pub open spec fn all_pairs(values: Seq<Vec<QueryField>>) -> Seq<(Seq<char>, Seq<char>)>
    decreases values.len(),
{
    if values.len() == 0 {
        Seq::empty()
    } else {
        all_pairs(values.drop_last()) + present_pairs(values.last()@)
    }
}

/// The query string of the Query-role values of a call.
pub fn encode_query(values: &Vec<Vec<QueryField>>) -> (r: String)
    ensures
        r@ == form_encoded_of(all_pairs(values@)),
{
    let mut pairs: Vec<(String, String)> = Vec::new();
    let mut i: usize = 0;
    while i < values.len()
        invariant
            i <= values@.len(),
            pair_texts(pairs@) == all_pairs(values@.take(i as int)),
        decreases values.len() - i,
    {
        proof {
            assert(values@.take(i + 1).drop_last() =~= values@.take(i as int));
        }
        let mut more = query_pairs(&values[i]);
        let ghost before = pairs@;
        let ghost added = more@;
        pairs.append(&mut more);
        assert(pair_texts(pairs@) =~= pair_texts(before) + pair_texts(added));
        i = i + 1;
    }
    assert(values@.take(i as int) =~= values@);
    match form_encode(&pairs) {
        Ok(s) => s,
        Err(_) => String::new(),
    }
}

/// Why a query string could not be read.
#[derive(Debug)]
pub struct QueryError {
    pub message: String,
}

/// The fields of a Query-role value read from a query string (see
/// [`decode_fields`]): fails exactly when a field is named twice.
pub fn decode_query(query: &str, names: &Vec<String>) -> (r: Result<Vec<Option<String>>, QueryError>)
    ensures
        r is Ok <==> decode_fields(form_decoded_of(query@), texts(names@)) is Some,
        r is Ok ==> decode_fields(form_decoded_of(query@), texts(names@)) == Some(
            opt_texts(r->Ok_0@),
        ),
{
    let pairs = match form_decode(query) {
        Ok(p) => p,
        Err(_) => Vec::new(),
    };
    match fields_from_pairs(names, &pairs) {
        Some(v) => Ok(v),
        None => Err(QueryError { message: String::from_str("a field is given more than once") }),
    }
}

/// A field list in which no two fields share a name.
pub open spec fn distinct_names(fs: Seq<QueryField>) -> bool {
    forall|i: int, j: int| 0 <= i < j < fs.len() ==> fs[i].name@ != fs[j].name@
}

/// The field names of a Query-role value.
pub open spec fn field_names(fs: Seq<QueryField>) -> Seq<Seq<char>> {
    fs.map_values(|f: QueryField| f.name@)
}

/// The field values of a Query-role value.
pub open spec fn field_values(fs: Seq<QueryField>) -> Seq<Option<Seq<char>>> {
    fs.map_values(|f: QueryField| opt_text(f.value))
}

proof fn lemma_lookup_push(ps: Seq<(Seq<char>, Seq<char>)>, p: (Seq<char>, Seq<char>), key: Seq<char>)
    ensures
        lookup(ps.push(p), key) == match lookup(ps, key) {
            Some(v) => Some(v),
            None => if p.0 == key {
                Some(p.1)
            } else {
                None
            },
        },
    decreases ps.len(),
{
    if ps.len() > 0 {
        assert(ps.push(p).drop_first() =~= ps.drop_first().push(p));
        assert(ps.push(p)[0] == ps[0]);
        lemma_lookup_push(ps.drop_first(), p, key);
    } else {
        assert(ps.push(p).drop_first() =~= Seq::<(Seq<char>, Seq<char>)>::empty());
        assert(ps.push(p)[0] == p);
        assert(lookup(Seq::<(Seq<char>, Seq<char>)>::empty(), key) is None);
    }
}

proof fn lemma_present_pairs_keys(fs: Seq<QueryField>, key: Seq<char>)
    requires
        forall|i: int| 0 <= i < fs.len() ==> (#[trigger] fs[i]).name@ != key,
    ensures
        lookup(present_pairs(fs), key) is None,
        key_count(present_pairs(fs), key) == 0,
    decreases fs.len(),
{
    if fs.len() > 0 {
        lemma_present_pairs_keys(fs.drop_last(), key);
        lemma_lookup_push(present_pairs(fs.drop_last()), (fs.last().name@, Seq::empty()), key);
        if fs.last().value is Some {
            let p = (fs.last().name@, fs.last().value->Some_0@);
            lemma_lookup_push(present_pairs(fs.drop_last()), p, key);
            assert(present_pairs(fs.drop_last()).push(p).drop_last() =~= present_pairs(
                fs.drop_last(),
            ));
        }
    }
}

proof fn lemma_present_pairs_once(fs: Seq<QueryField>, i: int)
    requires
        distinct_names(fs),
        0 <= i < fs.len(),
    ensures
        key_count(present_pairs(fs), fs[i].name@) <= 1,
        lookup(present_pairs(fs), fs[i].name@) == opt_text(fs[i].value),
    decreases fs.len(),
{
    let init = fs.drop_last();
    let last = fs.last();
    let key = fs[i].name@;
    if i < fs.len() - 1 {
        assert(init[i] == fs[i]);
        lemma_present_pairs_once(init, i);
        if last.value is Some {
            let p = (last.name@, last.value->Some_0@);
            lemma_lookup_push(present_pairs(init), p, key);
            assert(present_pairs(init).push(p).drop_last() =~= present_pairs(init));
        }
    } else {
        assert forall|k: int| 0 <= k < init.len() implies (#[trigger] init[k]).name@ != last.name@ by {
            assert(init[k] == fs[k]);
        }
        lemma_present_pairs_keys(init, last.name@);
        if last.value is Some {
            let p = (last.name@, last.value->Some_0@);
            lemma_lookup_push(present_pairs(init), p, last.name@);
            assert(present_pairs(init).push(p).drop_last() =~= present_pairs(init));
        }
    }
}

/// Decoding the pairs that a Query-role value with distinct field names is
/// written as gives the value back: every field its own value, a present
/// field its text and an absent one `None`.
pub proof fn lemma_query_round_trip(fs: Seq<QueryField>)
    requires
        distinct_names(fs),
    ensures
        decode_fields(present_pairs(fs), field_names(fs)) == Some(field_values(fs)),
{
    let ps = present_pairs(fs);
    let ns = field_names(fs);
    assert forall|i: int| 0 <= i < ns.len() implies key_count(ps, #[trigger] ns[i]) <= 1
        && lookup(ps, ns[i]) == field_values(fs)[i] by {
        lemma_present_pairs_once(fs, i);
    }
    assert(ns.map_values(|n: Seq<char>| lookup(ps, n)) =~= field_values(fs));
}

/// A status in the success range.
pub open spec fn is_success_status(status: u16) -> bool {
    200 <= status <= 299
}

/// The error a call reports for an answer with this status, if any: none
/// for a success status, otherwise `Api` with the status and the body text
/// (empty when the body could not be read).
pub fn response_error(status: u16, body: Option<String>) -> (r: Option<ClientError>)
    ensures
        r is None <==> is_success_status(status),
        match r {
            Some(ClientError::Api { status: s, body: b }) => s == status && b@ == match body {
                Some(t) => t@,
                None => Seq::empty(),
            },
            Some(ClientError::Request { .. }) => false,
            None => true,
        },
{
    if 200 <= status && status <= 299 {
        None
    } else {
        let body = match body {
            Some(t) => t,
            None => String::new(),
        };
        Some(ClientError::Api { status, body })
    }
}

/// The request URL from the base, the filled path and the encoded query:
/// the query is appended after `?` unless it is empty.
pub open spec fn url_of(base: Seq<char>, path: Seq<char>, query: Seq<char>) -> Seq<char> {
    if query.len() == 0 {
        base + path
    } else {
        base + path + "?"@ + query
    }
}

/// Joins the base URL, the filled path and the encoded query (see [`url_of`]).
pub fn join_url(base: &str, path: &str, query: &str) -> (r: String)
    ensures
        r@ == url_of(base@, path@, query@),
{
    let mut url = String::from_str(base);
    url.append(path);
    if query.unicode_len() > 0 {
        url.append("?");
        url.append(query);
    }
    url
}

/// The URL a call requests: the path values substituted, in order, for
/// the template's placeholders, then the encoded Query-role values, after
/// `?` unless their encoding is empty.
pub fn request_url(
    base: &str,
    template: &str,
    path_values: &Vec<String>,
    query_values: &Vec<Vec<QueryField>>,
) -> (r: String)
    ensures
        r@ == url_of(
            base@,
            fill(template@, path_values@.map_values(|v: String| v@)),
            if query_values@.len() == 0 {
                Seq::empty()
            } else {
                form_encoded_of(all_pairs(query_values@))
            },
        ),
{
    let path = fill_path(template, path_values);
    proof {
        reveal_strlit("");
    }
    if query_values.len() == 0 {
        join_url(base, path.as_str(), "")
    } else {
        let q = encode_query(query_values);
        join_url(base, path.as_str(), q.as_str())
    }
}

/// One argument of a generated client call.
#[derive(Debug)]
pub struct ClientArg {
    pub name: String,
    pub ty: String,
    /// Taken by reference (Body and Query roles) rather than by value (Path).
    pub by_ref: bool,
}

/// The generated client call of one method.
#[derive(Debug)]
pub struct ClientMethod {
    pub name: String,
    pub visibility: String,
    pub http_method: HttpMethod,
    pub path: String,
    /// One argument per declared parameter, in declared order.
    pub args: Vec<ClientArg>,
    /// The arguments substituted into the path, in declared order.
    pub path_args: Vec<usize>,
    /// The arguments encoded into the query string, in declared order.
    pub query_args: Vec<usize>,
    /// The argument sent as the JSON payload, if any (a built descriptor
    /// has at most one Body-role parameter).
    pub body_arg: Option<usize>,
    /// The type the answer is decoded as.
    pub result_type: String,
}

/// The generated client of one service.
#[derive(Debug)]
pub struct ClientBinding {
    pub client_name: String,
    /// The one error type shared by all calls of the service.
    pub error_name: String,
    pub methods: Vec<ClientMethod>,
}

/// The last entry of a list of positions, if any.
pub open spec fn last_of(s: Seq<usize>) -> Option<usize> {
    if s.len() > 0 {
        Some(s.last())
    } else {
        None
    }
}

/// The client call generated for a method.
pub open spec fn client_method_matches(c: ClientMethod, m: MethodSpec) -> bool {
    let ks = kinds_of(m.params@);
    &&& c.name@ == m.name@
    &&& c.visibility@ == m.visibility@
    &&& c.http_method == m.http_method
    &&& c.path@ == m.path@
    &&& c.args@.len() == m.params@.len()
    &&& forall|i: int|
        0 <= i < m.params@.len() ==> {
            &&& (#[trigger] c.args@[i]).name@ == m.params@[i].name@
            &&& c.args@[i].ty@ == m.params@[i].ty@
            &&& c.args@[i].by_ref == (m.params@[i].kind != ParamKind::Path)
        }
    &&& c.path_args@ == indices_of(ks, ParamKind::Path)
    &&& c.query_args@ == indices_of(ks, ParamKind::Query)
    &&& c.body_arg == last_of(indices_of(ks, ParamKind::Body))
    &&& c.result_type@ == m.return_type.inner_spec()
}

/// Describes the client call generated for one method: one argument per
/// parameter (Path-role by value, the others by reference), the path
/// and Query-role arguments in declared order, the last Body-role argument
/// (the only one, in a built descriptor), and the result type unwrapped one
/// level.
pub fn generate_client_method(m: &MethodSpec) -> (r: ClientMethod)
    ensures
        client_method_matches(r, *m),
{
    let mut args: Vec<ClientArg> = Vec::new();
    let mut i: usize = 0;
    while i < m.params.len()
        invariant
            i <= m.params@.len(),
            args@.len() == i,
            forall|k: int|
                0 <= k < i ==> {
                    &&& (#[trigger] args@[k]).name@ == m.params@[k].name@
                    &&& args@[k].ty@ == m.params@[k].ty@
                    &&& args@[k].by_ref == (m.params@[k].kind != ParamKind::Path)
                },
        decreases m.params.len() - i,
    {
        let p = &m.params[i];
        args.push(
            ClientArg {
                name: p.name.clone(),
                ty: p.ty.clone(),
                by_ref: p.kind != ParamKind::Path,
            },
        );
        i = i + 1;
    }
    let path_args = crate::server::collect_indices(&m.params, ParamKind::Path);
    let query_args = crate::server::collect_indices(&m.params, ParamKind::Query);
    let body_ix = crate::server::collect_indices(&m.params, ParamKind::Body);
    let body_arg = if body_ix.len() > 0 {
        Some(body_ix[body_ix.len() - 1])
    } else {
        None
    };
    ClientMethod {
        name: m.name.clone(),
        visibility: m.visibility.clone(),
        http_method: m.http_method,
        path: m.path.clone(),
        args,
        path_args,
        query_args,
        body_arg,
        result_type: extract_inner_type(&m.return_type),
    }
}

/// Describes the client of a service: `<Service>Client`, its error type
/// `<Service>ClientError`, and one call per method in declaration order.
pub fn generate_client(service: &ServiceSpec) -> (r: ClientBinding)
    ensures
        r.client_name@ == service.service_name@ + "Client"@,
        r.error_name@ == service.service_name@ + "ClientError"@,
        r.methods@.len() == service.methods@.len(),
        forall|i: int|
            0 <= i < r.methods@.len() ==> client_method_matches(
                #[trigger] r.methods@[i],
                service.methods@[i],
            ),
{
    let mut methods: Vec<ClientMethod> = Vec::new();
    let mut i: usize = 0;
    while i < service.methods.len()
        invariant
            i <= service.methods@.len(),
            methods@.len() == i,
            forall|k: int|
                0 <= k < i ==> client_method_matches(#[trigger] methods@[k], service.methods@[k]),
        decreases service.methods.len() - i,
    {
        methods.push(generate_client_method(&service.methods[i]));
        i = i + 1;
    }
    let mut client_name = String::from_str(service.service_name.as_str());
    client_name.append("Client");
    let mut error_name = String::from_str(service.service_name.as_str());
    error_name.append("ClientError");
    ClientBinding { client_name, error_name, methods }
}

} // verus!
