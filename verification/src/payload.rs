//! The request and response enums (`Req`, `Res`) and the payload enum that the derives
//! compute from the variants of a definition.
use vstd::prelude::*;

use crate::attrs::{
    extract_variant_attributes, variant_kind, SchemaError, SchemaErrorView, SerializationFormat,
    VariantAttr, VariantKind, VariantKindView,
};
use crate::rpc_types::{
    derive_attr, derive_attr_code, derive_paths, serialization_derives, GeneratedTypes,
};
use crate::text::texts;
use crate::text::{join, join_texts, joined, joined3, typed_list};

verus! {

/// A named field: its identifier and its type, as written.
pub struct NamedField {
    pub name: String,
    pub ty: String,
}

/// The fields of a variant, with their types as written.
pub enum Fields {
    /// `V(T0, T1, ..)`
    Unnamed(Vec<String>),
    /// `V { a: A, b: B, .. }`
    Named(Vec<NamedField>),
    /// `V`
    Unit,
}

/// The abstract value of [`Fields`].
pub enum FieldsView {
    Unnamed(Seq<Seq<char>>),
    Named(Seq<(Seq<char>, Seq<char>)>),
    Unit,
}

/// The views of a list of named fields.
pub open spec fn named_view(v: Seq<NamedField>) -> Seq<(Seq<char>, Seq<char>)> {
    v.map_values(|f: NamedField| (f.name@, f.ty@))
}

impl View for Fields {
    type V = FieldsView;

    open spec fn view(&self) -> FieldsView {
        match self {
            Fields::Unnamed(tys) => FieldsView::Unnamed(texts(tys@)),
            Fields::Named(fs) => FieldsView::Named(named_view(fs@)),
            Fields::Unit => FieldsView::Unit,
        }
    }
}

/// A copy of a list of strings.
pub fn copy_texts(v: &Vec<String>) -> (c: Vec<String>)
    ensures
        texts(c@) == texts(v@),
{
    let mut c: Vec<String> = Vec::new();
    let mut i: usize = 0;
    while i < v.len()
        invariant
            i <= v.len(),
            texts(c@) == texts(v@.take(i as int)),
        decreases v.len() - i,
    {
        let ghost before = c@;
        c.push(v[i].clone());
        proof {
            assert(texts(c@) =~= texts(before).push(v@[i as int]@));
            assert(texts(v@.take(i + 1)) =~= texts(v@.take(i as int)).push(v@[i as int]@));
        }
        i = i + 1;
    }
    assert(v@.take(v.len() as int) =~= v@);
    c
}

impl Fields {
    /// A copy of these fields.
    pub fn copy(&self) -> (c: Fields)
        ensures
            c@ == self@,
    {
        match self {
            Fields::Unnamed(tys) => Fields::Unnamed(copy_texts(tys)),
            Fields::Named(fs) => {
                let mut c: Vec<NamedField> = Vec::new();
                let mut i: usize = 0;
                while i < fs.len()
                    invariant
                        i <= fs.len(),
                        named_view(c@) == named_view(fs@.take(i as int)),
                    decreases fs.len() - i,
                {
                    let ghost before = c@;
                    c.push(NamedField { name: fs[i].name.clone(), ty: fs[i].ty.clone() });
                    proof {
                        let f = fs@[i as int];
                        assert(named_view(c@) =~= named_view(before).push((f.name@, f.ty@)));
                        assert(named_view(fs@.take(i + 1)) =~= named_view(
                            fs@.take(i as int),
                        ).push((f.name@, f.ty@)));
                    }
                    i = i + 1;
                }
                assert(fs@.take(fs.len() as int) =~= fs@);
                Fields::Named(c)
            },
            Fields::Unit => Fields::Unit,
        }
    }
}

/// A variant of the definition that derives the RPC traits.
pub struct VariantDef {
    pub name: String,
    pub attrs: Vec<VariantAttr>,
    pub fields: Fields,
}

/// A variant of an emitted enum.
pub struct EnumVariant {
    pub name: String,
    pub fields: Fields,
}

/// The abstract value of an [`EnumVariant`].
pub struct EnumVariantView {
    pub name: Seq<char>,
    pub fields: FieldsView,
}

impl View for EnumVariant {
    type V = EnumVariantView;

    open spec fn view(&self) -> EnumVariantView {
        EnumVariantView { name: self.name@, fields: self.fields@ }
    }
}

/// The views of a list of enum variants.
pub open spec fn variants_view(v: Seq<EnumVariant>) -> Seq<EnumVariantView> {
    v.map_values(|e: EnumVariant| e@)
}

/// Which side handles a call.
#[derive(PartialEq, Eq, Structural, Clone, Copy, Debug)]
pub enum RpcKind {
    /// The service handles it; clients send it.
    Service,
    /// Clients handle it; the service sends it.
    Client,
}

/// A call of the definition: the position of its variant and who handles it.
#[derive(PartialEq, Eq, Structural, Clone, Copy, Debug)]
pub struct RpcVariant {
    pub index: usize,
    pub kind: RpcKind,
}

/// The calls of a list of [`RpcVariant`]s, as positions and kinds.
pub open spec fn rpcs_view(v: Seq<RpcVariant>) -> Seq<(int, RpcKind)> {
    v.map_values(|r: RpcVariant| (r.index as int, r.kind))
}

/// The enums emitted for a definition: `Req` lists the calls, `Res` has one response
/// variant per call (in the same order, under the call's name) and `Error(error_type)`.
pub struct PayloadEnums {
    pub request: Vec<EnumVariant>,
    pub response: Vec<EnumVariant>,
    pub error_type: String,
    pub derives: Vec<String>,
    /// The code of the three enums.
    pub code: String,
}

/// The abstract value of [`PayloadEnums`].
pub struct PayloadEnumsView {
    pub request: Seq<EnumVariantView>,
    pub response: Seq<EnumVariantView>,
    pub error_type: Seq<char>,
    pub derives: Seq<Seq<char>>,
    pub code: Seq<char>,
}

impl View for PayloadEnums {
    type V = PayloadEnumsView;

    open spec fn view(&self) -> PayloadEnumsView {
        PayloadEnumsView {
            request: variants_view(self.request@),
            response: variants_view(self.response@),
            error_type: self.error_type@,
            derives: texts(self.derives@),
            code: self.code@,
        }
    }
}

/// The code of an enum variant: `V(T0, T1, ..)`, `V { a: A, b: B, .. }` or `V`.
pub open spec fn variant_code(v: EnumVariantView) -> Seq<char> {
    match v.fields {
        FieldsView::Unnamed(tys) => v.name + "("@ + join(tys, ", "@) + ")"@,
        FieldsView::Named(fs) => v.name + " { "@ + join(typed_list(fs), ", "@) + " }"@,
        FieldsView::Unit => v.name,
    }
}

/// The code of each variant.
pub open spec fn variants_code(vs: Seq<EnumVariantView>) -> Seq<Seq<char>> {
    vs.map_values(|v: EnumVariantView| variant_code(v))
}

/// The code of the payload enums: `Req` with the request variants, `Res` with the
/// response variants and `Error(error_type)`, and `Payload` with `Request(Req)` and
/// `Response(Res)`, each under the derives.
pub open spec fn payload_code(
    request: Seq<EnumVariantView>,
    response: Seq<EnumVariantView>,
    error_type: Seq<char>,
    derives: Seq<Seq<char>>,
) -> Seq<char> {
    derive_attr(derives) + " pub enum Req { "@ + join(variants_code(request), ", "@) + ", }\n"@
        + derive_attr(derives) + " pub enum Res { "@ + join(variants_code(response), ", "@)
        + ", Error("@ + error_type + "), }\n"@ + derive_attr(derives)
        + " pub enum Payload { Request(Req), Response(Res), }\n"@
}

/// Each named field written `name: type`.
fn named_field_codes(fs: &Vec<NamedField>) -> (r: Vec<String>)
    ensures
        texts(r@) == typed_list(named_view(fs@)),
{
    let mut r: Vec<String> = Vec::new();
    let mut i: usize = 0;
    while i < fs.len()
        invariant
            i <= fs.len(),
            texts(r@) == typed_list(named_view(fs@)).take(i as int),
        decreases fs.len() - i,
    {
        let ghost before = r@;
        let item = joined3(fs[i].name.as_str(), ": ", fs[i].ty.as_str());
        r.push(item);
        proof {
            assert(texts(r@) =~= texts(before).push(item@));
            assert(typed_list(named_view(fs@)).take(i + 1) =~= typed_list(named_view(fs@)).take(
                i as int,
            ).push(item@));
        }
        i = i + 1;
    }
    assert(typed_list(named_view(fs@)).take(fs.len() as int) =~= typed_list(named_view(fs@)));
    r
}

/// The code of an enum variant.
fn variant_text(v: &EnumVariant) -> (s: String)
    ensures
        s@ == variant_code(v@),
{
    match &v.fields {
        Fields::Unnamed(tys) => {
            let list = join_texts(tys, ", ");
            let mut s = String::from_str(v.name.as_str());
            s.append("(");
            s.append(list.as_str());
            s.append(")");
            s
        },
        Fields::Named(fs) => {
            let items = named_field_codes(fs);
            let list = join_texts(&items, ", ");
            let mut s = String::from_str(v.name.as_str());
            s.append(" { ");
            s.append(list.as_str());
            s.append(" }");
            s
        },
        Fields::Unit => String::from_str(v.name.as_str()),
    }
}

/// The variants' code joined by commas.
fn variants_text(vs: &Vec<EnumVariant>) -> (s: String)
    ensures
        s@ == join(variants_code(variants_view(vs@)), ", "@),
{
    let mut r: Vec<String> = Vec::new();
    let mut i: usize = 0;
    while i < vs.len()
        invariant
            i <= vs.len(),
            texts(r@) == variants_code(variants_view(vs@)).take(i as int),
        decreases vs.len() - i,
    {
        let ghost before = r@;
        let item = variant_text(&vs[i]);
        r.push(item);
        proof {
            assert(texts(r@) =~= texts(before).push(item@));
            assert(variants_code(variants_view(vs@)).take(i + 1) =~= variants_code(
                variants_view(vs@),
            ).take(i as int).push(item@));
        }
        i = i + 1;
    }
    assert(variants_code(variants_view(vs@)).take(vs.len() as int) =~= variants_code(
        variants_view(vs@),
    ));
    join_texts(&r, ", ")
}

/// The code of the payload enums.
fn payload_text(
    request: &Vec<EnumVariant>,
    response: &Vec<EnumVariant>,
    error_type: &String,
    derives: &Vec<String>,
) -> (s: String)
    ensures
        s@ == payload_code(variants_view(request@), variants_view(response@), error_type@, texts(derives@)),
{
    let attr = derive_attr_code(derives);
    let req = variants_text(request);
    let res = variants_text(response);
    let mut s = String::from_str(attr.as_str());
    s.append(" pub enum Req { ");
    s.append(req.as_str());
    s.append(", }\n");
    s.append(attr.as_str());
    s.append(" pub enum Res { ");
    s.append(res.as_str());
    s.append(", Error(");
    s.append(error_type.as_str());
    s.append("), }\n");
    s.append(attr.as_str());
    s.append(" pub enum Payload { Request(Req), Response(Res), }\n");
    s
}

/// The kind of a variant, as its attributes give it.
pub open spec fn kind_of(v: VariantDef) -> Result<VariantKindView, SchemaErrorView> {
    variant_kind(v.attrs@)
}

/// The first error among the kinds of the variants from `i` on, tagged with its variant.
pub open spec fn first_kind_error(vs: Seq<VariantDef>, i: int) -> Option<SchemaErrorView>
    decreases vs.len() - i,
{
    if i < 0 || i >= vs.len() {
        None
    } else {
        match kind_of(vs[i]) {
            Err(e) => Some(SchemaErrorView { variant: Some(i as usize), attr: e.attr, message: e.message }),
            Ok(_) => first_kind_error(vs, i + 1),
        }
    }
}

/// The calls among the first `n` variants, in order.
pub open spec fn rpc_variants(vs: Seq<VariantDef>, n: int) -> Seq<(int, RpcKind)>
    decreases n,
{
    if n <= 0 {
        Seq::empty()
    } else {
        rpc_variants(vs, n - 1) + match kind_of(vs[n - 1]) {
            Ok(VariantKindView::ServiceRpc) => seq![(n - 1, RpcKind::Service)],
            Ok(VariantKindView::ClientRpc) => seq![(n - 1, RpcKind::Client)],
            _ => Seq::empty(),
        }
    }
}

/// The last of the first `n` variants that is the response of `rpc`.
pub open spec fn response_target(vs: Seq<VariantDef>, n: int, rpc: Seq<char>) -> Option<int>
    decreases n,
{
    if n <= 0 {
        None
    } else if kind_of(vs[n - 1]) matches Ok(VariantKindView::Response(names)) && names.contains(
        rpc,
    ) {
        Some(n - 1)
    } else {
        response_target(vs, n - 1, rpc)
    }
}

/// The last of the first `n` variants that is a response and is named `name`.
pub open spec fn response_named(vs: Seq<VariantDef>, n: int, name: Seq<char>) -> Option<int>
    decreases n,
{
    if n <= 0 {
        None
    } else if kind_of(vs[n - 1]) matches Ok(VariantKindView::Response(_)) && vs[n - 1].name@
        == name {
        Some(n - 1)
    } else {
        response_named(vs, n - 1, name)
    }
}

/// The fields of the response to the call at position `j`: those of the variant named
/// as its response (the last response variant of that name), or the call's own.
pub open spec fn response_fields(vs: Seq<VariantDef>, j: int) -> FieldsView {
    match response_target(vs, vs.len() as int, vs[j].name@) {
        Some(t) => match response_named(vs, vs.len() as int, vs[t].name@) {
            Some(k) => vs[k].fields@,
            None => vs[j].fields@,
        },
        None => vs[j].fields@,
    }
}

/// The variants of `Req`: each call under its own name with its own fields.
pub open spec fn request_enum(vs: Seq<VariantDef>) -> Seq<EnumVariantView> {
    rpc_variants(vs, vs.len() as int).map_values(
        |p: (int, RpcKind)| EnumVariantView { name: vs[p.0].name@, fields: vs[p.0].fields@ },
    )
}

/// The response variants of `Res`: each call under its own name with the fields of
/// its response.
pub open spec fn response_enum(vs: Seq<VariantDef>) -> Seq<EnumVariantView> {
    rpc_variants(vs, vs.len() as int).map_values(
        |p: (int, RpcKind)| EnumVariantView { name: vs[p.0].name@, fields: response_fields(vs, p.0) },
    )
}

/// The enums emitted for the definition `name` with variants `vs`.
pub open spec fn payload_of(
    name: Seq<char>,
    vs: Seq<VariantDef>,
    format: Option<SerializationFormat>,
) -> PayloadEnumsView {
    PayloadEnumsView {
        request: request_enum(vs),
        response: response_enum(vs),
        error_type: name + "Error"@,
        derives: derive_paths(format),
        code: payload_code(request_enum(vs), response_enum(vs), name + "Error"@, derive_paths(format)),
    }
}

proof fn lemma_response_target_bounds(vs: Seq<VariantDef>, n: int, rpc: Seq<char>)
    ensures
        response_target(vs, n, rpc) matches Some(t) ==> 0 <= t < n,
    decreases n,
{
    if n > 0 {
        lemma_response_target_bounds(vs, n - 1, rpc);
    }
}

proof fn lemma_response_named_bounds(vs: Seq<VariantDef>, n: int, name: Seq<char>)
    ensures
        response_named(vs, n, name) matches Some(t) ==> 0 <= t < n,
    decreases n,
{
    if n > 0 {
        lemma_response_named_bounds(vs, n - 1, name);
    }
}

/// Whether the call `c` is what the kind of its variant says.
pub open spec fn call_matches_kind(vs: Seq<VariantDef>, c: (int, RpcKind)) -> bool {
    &&& c.1 == RpcKind::Service ==> kind_of(vs[c.0]) == Ok::<_, SchemaErrorView>(
        VariantKindView::ServiceRpc,
    )
    &&& c.1 == RpcKind::Client ==> kind_of(vs[c.0]) == Ok::<_, SchemaErrorView>(
        VariantKindView::ClientRpc,
    )
}

pub(crate) proof fn lemma_rpc_variants_bounds(vs: Seq<VariantDef>, n: int)
    ensures
        forall|k: int|
            0 <= k < rpc_variants(vs, n).len() ==> 0 <= #[trigger] rpc_variants(vs, n)[k].0 < n
                && call_matches_kind(vs, rpc_variants(vs, n)[k]),
    decreases n,
{
    if n > 0 {
        lemma_rpc_variants_bounds(vs, n - 1);
        let prev = rpc_variants(vs, n - 1);
        let all = rpc_variants(vs, n);
        assert forall|k: int| 0 <= k < all.len() implies 0 <= #[trigger] all[k].0 < n
            && call_matches_kind(vs, all[k]) by {
            if k < prev.len() {
                assert(all[k] == prev[k]);
            }
        }
    }
}

/// `Req` and `Res` list the same calls in the same order: the `k`-th response variant
/// carries the name of the `k`-th request variant, and the fields of the call itself
/// when no variant is declared as its response. Every request variant comes from a
/// variant that is a call; no variant declared as a response becomes a request.
pub proof fn lemma_requests_and_responses_align(vs: Seq<VariantDef>)
    ensures
        request_enum(vs).len() == response_enum(vs).len(),
        forall|k: int|
            0 <= k < request_enum(vs).len() ==> #[trigger] request_enum(vs)[k].name
                == response_enum(vs)[k].name,
        forall|k: int|
            0 <= k < request_enum(vs).len() && response_target(
                vs,
                vs.len() as int,
                #[trigger] request_enum(vs)[k].name,
            ) is None ==> response_enum(vs)[k].fields == request_enum(vs)[k].fields,
        forall|k: int|
            0 <= k < rpc_variants(vs, vs.len() as int).len() ==> !(kind_of(
                vs[#[trigger] rpc_variants(vs, vs.len() as int)[k].0],
            ) matches Ok(VariantKindView::Response(_))),
{
    lemma_rpc_variants_bounds(vs, vs.len() as int);
    let calls = rpc_variants(vs, vs.len() as int);
    assert forall|k: int| 0 <= k < calls.len() implies !(kind_of(
        vs[#[trigger] calls[k].0],
    ) matches Ok(VariantKindView::Response(_))) by {
        assert(call_matches_kind(vs, calls[k]));
    }
}

/// A variant written as the definition declares it: `V(T0, T1, ..)` with the types of
/// its unnamed fields in their declared order, `V { a: A, b: B, .. }` with its named
/// fields in theirs, or `V`.
pub open spec fn declared_variant(v: EnumVariantView) -> Seq<char> {
    match v.fields {
        FieldsView::Unnamed(tys) => v.name + "("@ + join(tys, ", "@) + ")"@,
        FieldsView::Named(fs) => v.name + " { "@ + join(
            Seq::new(fs.len(), |i: int| fs[i].0 + ": "@ + fs[i].1),
            ", "@,
        ) + " }"@,
        FieldsView::Unit => v.name,
    }
}

proof fn lemma_variants_code_declared(vs: Seq<EnumVariantView>)
    ensures
        variants_code(vs) == vs.map_values(|v: EnumVariantView| declared_variant(v)),
{
    assert forall|k: int| 0 <= k < vs.len() implies #[trigger] variants_code(vs)[k]
        == declared_variant(vs[k]) by {
        if let FieldsView::Named(fs) = vs[k].fields {
            assert(typed_list(fs) =~= Seq::new(fs.len(), |i: int| fs[i].0 + ": "@ + fs[i].1));
        }
    }
    assert(variants_code(vs) =~= vs.map_values(|v: EnumVariantView| declared_variant(v)));
}

/// The emitted `Req` and `Res` write each call as the definition declares it, with its
/// fields in their declared order: `Req` lists the request variants, `Res` the response
/// variants and then `Error(<name>Error)`, each variant `V(T0, .., Tn)` for unnamed
/// fields `T0, .., Tn`; `Payload` follows; all three under the derives of the option.
pub proof fn lemma_enum_code_keeps_field_order(
    name: Seq<char>,
    vs: Seq<VariantDef>,
    format: Option<SerializationFormat>,
)
    ensures
        payload_of(name, vs, format).code == derive_attr(derive_paths(format))
            + " pub enum Req { "@ + join(
            request_enum(vs).map_values(|v: EnumVariantView| declared_variant(v)),
            ", "@,
        ) + ", }\n"@ + derive_attr(derive_paths(format)) + " pub enum Res { "@ + join(
            response_enum(vs).map_values(|v: EnumVariantView| declared_variant(v)),
            ", "@,
        ) + ", Error("@ + name + "Error"@ + "), }\n"@ + derive_attr(derive_paths(format))
            + " pub enum Payload { Request(Req), Response(Res), }\n"@,
{
    lemma_variants_code_declared(request_enum(vs));
    lemma_variants_code_declared(response_enum(vs));
}

/// Whether `names` holds `s`.
fn names_contain(names: &Vec<String>, s: &String) -> (b: bool)
    ensures
        b == texts(names@).contains(s@),
{
    let mut i: usize = 0;
    while i < names.len()
        invariant
            i <= names.len(),
            forall|j: int| 0 <= j < i ==> names@[j]@ != s@,
        decreases names.len() - i,
    {
        if names[i] == *s {
            assert(texts(names@)[i as int] == s@);
            return true;
        }
        i = i + 1;
    }
    proof {
        if texts(names@).contains(s@) {
            let k = texts(names@).index_of(s@);
            assert(names@[k]@ == s@);
        }
    }
    false
}

/// Whether the exec kinds agree with the kinds of the first `n` variants.
pub open spec fn kinds_match(vs: Seq<VariantDef>, kinds: Seq<VariantKind>, n: int) -> bool {
    &&& kinds.len() == n
    &&& forall|j: int| 0 <= j < n ==> kind_of(#[trigger] vs[j]) == Ok::<_, SchemaErrorView>(kinds[j]@)
}

/// The position of the last variant that is the response of `rpc`.
fn find_response_target(vs: &Vec<VariantDef>, kinds: &Vec<VariantKind>, rpc: &String) -> (r:
    Option<usize>)
    requires
        kinds_match(vs@, kinds@, vs.len() as int),
    ensures
        r matches Some(k) ==> response_target(vs@, vs.len() as int, rpc@) == Some(k as int)
            && k < vs.len(),
        r is None ==> response_target(vs@, vs.len() as int, rpc@) is None,
{
    proof {
        lemma_response_target_bounds(vs@, vs.len() as int, rpc@);
    }
    let mut n: usize = vs.len();
    while n > 0
        invariant
            n <= vs.len(),
            kinds_match(vs@, kinds@, vs.len() as int),
            response_target(vs@, vs.len() as int, rpc@) == response_target(vs@, n as int, rpc@),
        decreases n,
    {
        assert(kind_of(vs@[n - 1]) == Ok::<_, SchemaErrorView>(kinds@[n - 1]@));
        if let VariantKind::Response(names) = &kinds[n - 1] {
            if names_contain(names, rpc) {
                return Some(n - 1);
            }
        }
        n = n - 1;
    }
    None
}

/// The position of the last response variant named `name`.
fn find_response_named(vs: &Vec<VariantDef>, kinds: &Vec<VariantKind>, name: &String) -> (r:
    Option<usize>)
    requires
        kinds_match(vs@, kinds@, vs.len() as int),
    ensures
        r matches Some(k) ==> response_named(vs@, vs.len() as int, name@) == Some(k as int)
            && k < vs.len(),
        r is None ==> response_named(vs@, vs.len() as int, name@) is None,
{
    proof {
        lemma_response_named_bounds(vs@, vs.len() as int, name@);
    }
    let mut n: usize = vs.len();
    while n > 0
        invariant
            n <= vs.len(),
            kinds_match(vs@, kinds@, vs.len() as int),
            response_named(vs@, vs.len() as int, name@) == response_named(vs@, n as int, name@),
        decreases n,
    {
        assert(kind_of(vs@[n - 1]) == Ok::<_, SchemaErrorView>(kinds@[n - 1]@));
        if let VariantKind::Response(_) = &kinds[n - 1] {
            if vs[n - 1].name == *name {
                return Some(n - 1);
            }
        }
        n = n - 1;
    }
    None
}

/// The fields of the response to the call at position `j`.
fn response_fields_of(vs: &Vec<VariantDef>, kinds: &Vec<VariantKind>, j: usize) -> (f: Fields)
    requires
        kinds_match(vs@, kinds@, vs.len() as int),
        j < vs.len(),
    ensures
        f@ == response_fields(vs@, j as int),
{
    match find_response_target(vs, kinds, &vs[j].name) {
        Some(t) => match find_response_named(vs, kinds, &vs[t].name) {
            Some(k) => vs[k].fields.copy(),
            None => vs[j].fields.copy(),
        },
        None => vs[j].fields.copy(),
    }
}

/// The calls of the definition, and the `Req`, `Res` and payload enums for them.
/// The kind of every variant is read first; the first variant whose attributes are
/// in error makes the whole an error. The enums are emitted only by the first derive
/// that asks for them: once `Req` is recorded as emitted, later derives get the calls
/// and no enums.
pub fn generate_payload_enums(
    name: &str,
    variants: &Vec<VariantDef>,
    format: Option<SerializationFormat>,
    generated: &mut GeneratedTypes,
) -> (r: Result<(Vec<RpcVariant>, Option<PayloadEnums>), SchemaError>)
    ensures
        match first_kind_error(variants@, 0) {
            Some(e) => {
                &&& r matches Err(x) && x@ == e
                &&& final(generated)@ == old(generated)@
            },
            None => {
                &&& r matches Ok((rpcs, payload)) && {
                    &&& rpcs_view(rpcs@) == rpc_variants(variants@, variants.len() as int)
                    &&& old(generated)@.contains("Req"@) ==> payload is None
                    &&& !old(generated)@.contains("Req"@) ==> (payload matches Some(p) && p@
                        == payload_of(name@, variants@, format))
                }
                &&& old(generated)@.contains("Req"@) ==> final(generated)@ == old(generated)@
                &&& !old(generated)@.contains("Req"@) ==> final(generated)@ == old(
                    generated,
                )@.insert("Req"@).insert("Res"@)
            },
        },
{
    // The kind of each variant.
    let mut kinds: Vec<VariantKind> = Vec::new();
    let mut i: usize = 0;
    while i < variants.len()
        invariant
            i <= variants.len(),
            kinds_match(variants@, kinds@, i as int),
            first_kind_error(variants@, 0) == first_kind_error(variants@, i as int),
        decreases variants.len() - i,
    {
        match extract_variant_attributes(&variants[i].attrs) {
            Ok(k) => {
                kinds.push(k);
            },
            Err(e) => {
                return Err(SchemaError { variant: Some(i), attr: e.attr, message: e.message });
            },
        }
        i = i + 1;
    }
    assert(first_kind_error(variants@, variants.len() as int) is None);

    // The calls, in order.
    let mut rpcs: Vec<RpcVariant> = Vec::new();
    let mut i: usize = 0;
    while i < variants.len()
        invariant
            i <= variants.len(),
            kinds_match(variants@, kinds@, variants.len() as int),
            rpcs_view(rpcs@) == rpc_variants(variants@, i as int),
        decreases variants.len() - i,
    {
        let ghost before = rpcs@;
        assert(kind_of(variants@[i as int]) == Ok::<_, SchemaErrorView>(kinds@[i as int]@));
        match &kinds[i] {
            VariantKind::ServiceRpc => {
                rpcs.push(RpcVariant { index: i, kind: RpcKind::Service });
            },
            VariantKind::ClientRpc => {
                rpcs.push(RpcVariant { index: i, kind: RpcKind::Client });
            },
            VariantKind::Response(_) => {},
        }
        assert(rpcs_view(rpcs@) =~= rpc_variants(variants@, i + 1));
        i = i + 1;
    }

    if generated.contains("Req") {
        return Ok((rpcs, None));
    }

    let ghost calls = rpc_variants(variants@, variants.len() as int);
    proof {
        lemma_rpc_variants_bounds(variants@, variants.len() as int);
        assert forall|k: int| 0 <= k < rpcs.len() implies #[trigger] rpcs@[k].index
            < variants.len() by {
            assert(rpcs_view(rpcs@)[k] == calls[k]);
            assert(rpcs_view(rpcs@)[k].0 == rpcs@[k].index as int);
            assert(0 <= rpc_variants(variants@, variants.len() as int)[k].0 < variants.len());
        }
    }
    let mut request: Vec<EnumVariant> = Vec::new();
    let mut response: Vec<EnumVariant> = Vec::new();
    let mut i: usize = 0;
    while i < rpcs.len()
        invariant
            i <= rpcs.len(),
            kinds_match(variants@, kinds@, variants.len() as int),
            rpcs_view(rpcs@) == calls,
            calls == rpc_variants(variants@, variants.len() as int),
            forall|k: int| 0 <= k < rpcs.len() ==> #[trigger] rpcs@[k].index < variants.len(),
            variants_view(request@) == request_enum(variants@).take(i as int),
            variants_view(response@) == response_enum(variants@).take(i as int),
        decreases rpcs.len() - i,
    {
        let j = rpcs[i].index;
        let ghost req_before = request@;
        let ghost res_before = response@;
        request.push(EnumVariant { name: variants[j].name.clone(), fields: variants[j].fields.copy() });
        response.push(
            EnumVariant { name: variants[j].name.clone(), fields: response_fields_of(variants, &kinds, j) },
        );
        proof {
            assert(calls[i as int].0 == j);
            assert(variants_view(request@) =~= variants_view(req_before).push(request@[i as int]@));
            assert(request_enum(variants@).take(i + 1) =~= request_enum(variants@).take(
                i as int,
            ).push(request@[i as int]@));
            assert(variants_view(response@) =~= variants_view(res_before).push(
                response@[i as int]@,
            ));
            assert(response_enum(variants@).take(i + 1) =~= response_enum(variants@).take(
                i as int,
            ).push(response@[i as int]@));
        }
        i = i + 1;
    }
    assert(request_enum(variants@).take(rpcs.len() as int) =~= request_enum(variants@));
    assert(response_enum(variants@).take(rpcs.len() as int) =~= response_enum(variants@));

    generated.insert("Req");
    generated.insert("Res");
    let error_type = joined(name, "Error");
    let derives = serialization_derives(format);
    let code = payload_text(&request, &response, &error_type, &derives);
    let payload = PayloadEnums { request, response, error_type, derives, code };
    Ok((rpcs, Some(payload)))
}

} // verus!
