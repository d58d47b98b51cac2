//! The traits that the derives emit: `<Name>Service`, which a service connection
//! implements, and `<Name>Client`, which a client implements. Each call of the
//! definition becomes a method on both sides.
use vstd::prelude::*;

use crate::attrs::{
    extract_serialization_option, option_meets_serde, serialization_option_from, SchemaError,
};
use crate::naming::{
    handler_method_name, handler_name, response_method_name, response_name, snake_case,
    to_snake_case,
};
use crate::payload::{
    first_kind_error, generate_payload_enums, payload_of, request_enum, rpc_variants, rpcs_view,
    Fields, FieldsView, PayloadEnums, RpcKind, RpcVariant, VariantDef,
};
use crate::rpc_types::{
    generate_rpc_request_response, rpc_types_of, GeneratedTypes, RpcTypes,
};
use crate::attrs::EnumAttr;
use crate::text::texts;
use crate::text::{decimal, decimal_text, join, join_texts, joined, joined3, typed_list};
use vstd::string::StringExecFns;

verus! {

/// An argument of a generated method: its name and its type, as written.
pub struct MethodArg {
    pub name: String,
    pub ty: String,
}

/// The views of a list of arguments.
pub open spec fn args_view(v: Seq<MethodArg>) -> Seq<(Seq<char>, Seq<char>)> {
    v.map_values(|a: MethodArg| (a.name@, a.ty@))
}

/// The arguments of the methods for a call with these fields: `arg0`, `arg1`, .. for
/// unnamed fields, the field names for named ones, none for a unit variant.
pub open spec fn args_of(f: FieldsView) -> Seq<(Seq<char>, Seq<char>)> {
    match f {
        FieldsView::Unnamed(tys) => Seq::new(
            tys.len(),
            |i: int| ("arg"@ + decimal(i as nat), tys[i]),
        ),
        FieldsView::Named(fs) => fs,
        FieldsView::Unit => Seq::empty(),
    }
}

/// The arguments of the methods for a call with these fields.
pub fn method_args(fields: &Fields) -> (args: Vec<MethodArg>)
    ensures
        args_view(args@) == args_of(fields@),
{
    let mut args: Vec<MethodArg> = Vec::new();
    match fields {
        Fields::Unnamed(tys) => {
            let mut i: usize = 0;
            while i < tys.len()
                invariant
                    i <= tys.len(),
                    args_view(args@) == args_of(fields@).take(i as int),
                    fields@ == FieldsView::Unnamed(texts(tys@)),
                decreases tys.len() - i,
            {
                let ghost before = args@;
                let index = decimal_text(i);
                args.push(MethodArg { name: joined("arg", index.as_str()), ty: tys[i].clone() });
                proof {
                    assert(args_view(args@) =~= args_view(before).push(
                        ("arg"@ + decimal(i as nat), tys@[i as int]@),
                    ));
                    assert(args_of(fields@).take(i + 1) =~= args_of(fields@).take(i as int).push(
                        ("arg"@ + decimal(i as nat), tys@[i as int]@),
                    ));
                }
                i = i + 1;
            }
            assert(args_of(fields@).take(tys.len() as int) =~= args_of(fields@));
        },
        Fields::Named(fs) => {
            let mut i: usize = 0;
            while i < fs.len()
                invariant
                    i <= fs.len(),
                    args_view(args@) == args_of(fields@).take(i as int),
                    fields@ == FieldsView::Named(fs@.map_values(|f: crate::payload::NamedField| (f.name@, f.ty@))),
                decreases fs.len() - i,
            {
                let ghost before = args@;
                args.push(MethodArg { name: fs[i].name.clone(), ty: fs[i].ty.clone() });
                proof {
                    let f = fs@[i as int];
                    assert(args_view(args@) =~= args_view(before).push((f.name@, f.ty@)));
                    assert(args_of(fields@).take(i + 1) =~= args_of(fields@).take(i as int).push(
                        (f.name@, f.ty@),
                    ));
                }
                i = i + 1;
            }
            assert(args_of(fields@).take(fs.len() as int) =~= args_of(fields@));
        },
        Fields::Unit => {
            assert(args_view(args@) =~= args_of(fields@));
        },
    }
    args
}

/// A method of the service trait: `handle_<call>_request(..) -> Res` for a call that the
/// service handles, `on_<call>_response(..)` for a call that clients handle.
pub struct ServiceMethod {
    pub name: String,
    pub args: Vec<MethodArg>,
    /// The shape of the call's fields; the method of a unit call takes only `&self`.
    pub shape: CallShape,
    pub returns_response: bool,
}

/// The abstract value of a [`ServiceMethod`].
pub struct ServiceMethodView {
    pub name: Seq<char>,
    pub args: Seq<(Seq<char>, Seq<char>)>,
    pub shape: CallShape,
    pub returns_response: bool,
}

impl View for ServiceMethod {
    type V = ServiceMethodView;

    open spec fn view(&self) -> ServiceMethodView {
        ServiceMethodView {
            name: self.name@,
            args: args_view(self.args@),
            shape: self.shape,
            returns_response: self.returns_response,
        }
    }
}

/// The service method for the call `c` (a position among `vs` and a kind).
pub open spec fn service_method_of(vs: Seq<VariantDef>, c: (int, RpcKind)) -> ServiceMethodView {
    ServiceMethodView {
        name: if c.1 == RpcKind::Service {
            handler_name(vs[c.0].name@)
        } else {
            response_name(vs[c.0].name@)
        },
        args: args_of(vs[c.0].fields@),
        shape: shape_of(vs[c.0].fields@),
        returns_response: c.1 == RpcKind::Service,
    }
}

/// The methods of the service trait, one per call, in order.
pub open spec fn service_methods(vs: Seq<VariantDef>) -> Seq<ServiceMethodView> {
    rpc_variants(vs, vs.len() as int).map_values(|c: (int, RpcKind)| service_method_of(vs, c))
}

/// How a client method builds the request it sends.
#[derive(PartialEq, Eq, Structural, Clone, Copy, Debug)]
pub enum CallShape {
    /// `Req::V(arg0, arg1, ..)`
    Tuple,
    /// `Req::V { a, b, .. }`
    Struct,
    /// `Req::V`
    Unit,
}

/// The shape of the request built from a variant with these fields.
pub open spec fn shape_of(f: FieldsView) -> CallShape {
    match f {
        FieldsView::Unnamed(_) => CallShape::Tuple,
        FieldsView::Named(_) => CallShape::Struct,
        FieldsView::Unit => CallShape::Unit,
    }
}

/// The request that a client method sends: the `Req` variant and how it is built.
pub struct RequestCall {
    pub variant: String,
    pub shape: CallShape,
}

/// A method of the client trait: `<call>(..)`, which sends the request with a fresh
/// identifier, for a call that the service handles; `handle_<call>_request(..) -> Res`,
/// which the client implements, for a call that clients handle.
pub struct ClientMethod {
    pub name: String,
    pub args: Vec<MethodArg>,
    /// The shape of the call's fields; the method of a unit call takes only `&self`.
    pub shape: CallShape,
    pub sends: Option<RequestCall>,
}

/// The abstract value of a [`ClientMethod`].
pub struct ClientMethodView {
    pub name: Seq<char>,
    pub args: Seq<(Seq<char>, Seq<char>)>,
    pub shape: CallShape,
    pub sends: Option<(Seq<char>, CallShape)>,
}

impl View for ClientMethod {
    type V = ClientMethodView;

    open spec fn view(&self) -> ClientMethodView {
        ClientMethodView {
            name: self.name@,
            args: args_view(self.args@),
            shape: self.shape,
            sends: match self.sends {
                Some(c) => Some((c.variant@, c.shape)),
                None => None,
            },
        }
    }
}

/// The client method for the call `c`.
pub open spec fn client_method_of(vs: Seq<VariantDef>, c: (int, RpcKind)) -> ClientMethodView {
    ClientMethodView {
        name: if c.1 == RpcKind::Service {
            snake_case(vs[c.0].name@)
        } else {
            handler_name(vs[c.0].name@)
        },
        args: args_of(vs[c.0].fields@),
        shape: shape_of(vs[c.0].fields@),
        sends: if c.1 == RpcKind::Service {
            Some((vs[c.0].name@, shape_of(vs[c.0].fields@)))
        } else {
            None
        },
    }
}

/// The methods of the client trait, one per call, in order.
pub open spec fn client_methods(vs: Seq<VariantDef>) -> Seq<ClientMethodView> {
    rpc_variants(vs, vs.len() as int).map_values(|c: (int, RpcKind)| client_method_of(vs, c))
}

/// The set of emitted type names after the shared types were asked for.
pub open spec fn with_shared_types(g: Set<Seq<char>>) -> Set<Seq<char>> {
    if g.contains("Message"@) {
        g
    } else {
        g.insert("Message"@)
    }
}

/// The set of emitted type names after the payload enums were asked for.
pub open spec fn with_payload_enums(g: Set<Seq<char>>) -> Set<Seq<char>> {
    if g.contains("Req"@) {
        g
    } else {
        g.insert("Req"@).insert("Res"@)
    }
}

/// What the `RpcService` derive emits for a definition.
pub struct ServiceDerive {
    /// The shared types, when this derive is the first to emit them.
    pub rpc_types: Option<RpcTypes>,
    /// The `Req`, `Res` and payload enums, when this derive is the first to emit them.
    pub payload: Option<PayloadEnums>,
    /// `<Name>Service`.
    pub trait_name: String,
    pub methods: Vec<ServiceMethod>,
    /// The code emitted: the shared types and the payload enums when emitted here,
    /// then the service trait.
    pub code: String,
}

/// What the `RpcClient` derive emits for a definition.
pub struct ClientDerive {
    pub rpc_types: Option<RpcTypes>,
    pub payload: Option<PayloadEnums>,
    /// `<Name>Client`.
    pub trait_name: String,
    pub methods: Vec<ClientMethod>,
    /// The code emitted: the shared types and the payload enums when emitted here,
    /// then the client trait.
    pub code: String,
}

/// The parameters of a generated method: `(&self)` for a unit call, else
/// `(&self, <args>)` (so `(&self, )` when a call has an empty field list).
pub open spec fn params_code(shape: CallShape, args: Seq<(Seq<char>, Seq<char>)>) -> Seq<char> {
    if shape == CallShape::Unit {
        "(&self)"@
    } else {
        "(&self, "@ + join(typed_list(args), ", "@) + ")"@
    }
}

/// The code of a service method: `async fn <name><params> -> Res;` for a call the
/// service handles, `async fn <name><params>;` for one that clients handle.
pub open spec fn service_method_code(m: ServiceMethodView) -> Seq<char> {
    "async fn "@ + m.name + params_code(m.shape, m.args) + if m.returns_response {
        " -> Res;"@
    } else {
        ";"@
    }
}

/// The code of the service trait `trait_name`: the three methods every service has
/// (sending a message to the client, answering a request payload, taking a response
/// payload), then one method per call.
pub open spec fn service_trait_code(trait_name: Seq<char>, methods: Seq<ServiceMethodView>) -> Seq<char> {
    "pub trait "@ + trait_name
        + " { async fn send_client_message(&self, message: Message) -> Result<(), Box<dyn std::error::Error>>; async fn on_request_payload(&mut self, payload: Req) -> Res; async fn on_response_payload(&mut self, payload: Res); "@
        + join(methods.map_values(|m: ServiceMethodView| service_method_code(m)), " "@) + " }\n"@
}

/// The names of the arguments.
pub open spec fn arg_names(args: Seq<(Seq<char>, Seq<char>)>) -> Seq<Seq<char>> {
    args.map_values(|a: (Seq<char>, Seq<char>)| a.0)
}

/// The request built from the arguments: `Req::V(a, b, ..)`, `Req::V { a, b, .. }` or
/// `Req::V`.
pub open spec fn request_code(
    variant: Seq<char>,
    shape: CallShape,
    args: Seq<(Seq<char>, Seq<char>)>,
) -> Seq<char> {
    match shape {
        CallShape::Tuple => "Req::"@ + variant + "("@ + join(arg_names(args), ", "@) + ")"@,
        CallShape::Struct => "Req::"@ + variant + " { "@ + join(arg_names(args), ", "@) + " }"@,
        CallShape::Unit => "Req::"@ + variant,
    }
}

/// The code of a client method. For a call the service handles, a provided method
/// that takes one identifier from `generate_request_id` and sends the request once,
/// as a `Message` with that identifier and the client as origin, returning what
/// `send_message` returns; for a call that clients handle, the declaration of its
/// handler, which returns `Res`.
pub open spec fn client_method_code(m: ClientMethodView) -> Seq<char> {
    match m.sends {
        Some(call) => "fn "@ + m.name + params_code(m.shape, m.args)
            + " -> Result<(), Box<dyn std::error::Error>> { self.send_message(Message { id: self.generate_request_id(), origin: Origin::Client, payload: Payload::Request("@
            + request_code(call.0, call.1, m.args) + "), }) }"@,
        None => "fn "@ + m.name + params_code(m.shape, m.args) + " -> Res;"@,
    }
}

/// The code of the client trait `trait_name`: `send_message` and
/// `generate_request_id`, which every client implements, then one method per call.
pub open spec fn client_trait_code(trait_name: Seq<char>, methods: Seq<ClientMethodView>) -> Seq<char> {
    "pub trait "@ + trait_name
        + " { fn send_message(&self, request: Message) -> Result<(), Box<dyn std::error::Error>>; fn generate_request_id(&self) -> u32; "@
        + join(methods.map_values(|m: ClientMethodView| client_method_code(m)), " "@) + " }\n"@
}

/// The code of the shared types when emitted, else nothing.
pub open spec fn shared_code(t: Option<RpcTypes>) -> Seq<char> {
    match t {
        Some(x) => x.code@,
        None => Seq::empty(),
    }
}

/// The code of the payload enums when emitted, else nothing.
pub open spec fn enums_code(p: Option<PayloadEnums>) -> Seq<char> {
    match p {
        Some(x) => x.code@,
        None => Seq::empty(),
    }
}

/// Each argument written `name: type`.
fn arg_codes(args: &Vec<MethodArg>) -> (r: Vec<String>)
    ensures
        texts(r@) == typed_list(args_view(args@)),
{
    let mut r: Vec<String> = Vec::new();
    let mut i: usize = 0;
    while i < args.len()
        invariant
            i <= args.len(),
            texts(r@) == typed_list(args_view(args@)).take(i as int),
        decreases args.len() - i,
    {
        let ghost before = r@;
        let item = joined3(args[i].name.as_str(), ": ", args[i].ty.as_str());
        r.push(item);
        proof {
            assert(texts(r@) =~= texts(before).push(item@));
            assert(typed_list(args_view(args@)).take(i + 1) =~= typed_list(args_view(args@)).take(
                i as int,
            ).push(item@));
        }
        i = i + 1;
    }
    assert(typed_list(args_view(args@)).take(args.len() as int) =~= typed_list(args_view(args@)));
    r
}

/// The names of the arguments.
fn arg_name_list(args: &Vec<MethodArg>) -> (r: Vec<String>)
    ensures
        texts(r@) == arg_names(args_view(args@)),
{
    let mut r: Vec<String> = Vec::new();
    let mut i: usize = 0;
    while i < args.len()
        invariant
            i <= args.len(),
            texts(r@) == arg_names(args_view(args@)).take(i as int),
        decreases args.len() - i,
    {
        let ghost before = r@;
        let item = args[i].name.clone();
        r.push(item);
        proof {
            assert(texts(r@) =~= texts(before).push(item@));
            assert(arg_names(args_view(args@)).take(i + 1) =~= arg_names(args_view(args@)).take(
                i as int,
            ).push(item@));
        }
        i = i + 1;
    }
    assert(arg_names(args_view(args@)).take(args.len() as int) =~= arg_names(args_view(args@)));
    r
}

/// The parameters of a generated method.
fn params_text(shape: CallShape, args: &Vec<MethodArg>) -> (s: String)
    ensures
        s@ == params_code(shape, args_view(args@)),
{
    if shape == CallShape::Unit {
        String::from_str("(&self)")
    } else {
        let list = join_texts(&arg_codes(args), ", ");
        let mut s = String::from_str("(&self, ");
        s.append(list.as_str());
        s.append(")");
        s
    }
}

/// The code of a service method.
fn service_method_text(m: &ServiceMethod) -> (s: String)
    ensures
        s@ == service_method_code(m@),
{
    let params = params_text(m.shape, &m.args);
    let mut s = String::from_str("async fn ");
    s.append(m.name.as_str());
    s.append(params.as_str());
    if m.returns_response {
        s.append(" -> Res;");
    } else {
        s.append(";");
    }
    s
}

/// The code of a client method.
fn client_method_text(m: &ClientMethod) -> (s: String)
    ensures
        s@ == client_method_code(m@),
{
    let params = params_text(m.shape, &m.args);
    let mut s = String::from_str("fn ");
    s.append(m.name.as_str());
    s.append(params.as_str());
    match &m.sends {
        Some(call) => {
            let names = join_texts(&arg_name_list(&m.args), ", ");
            s.append(
                " -> Result<(), Box<dyn std::error::Error>> { self.send_message(Message { id: self.generate_request_id(), origin: Origin::Client, payload: Payload::Request(",
            );
            s.append("Req::");
            s.append(call.variant.as_str());
            match call.shape {
                CallShape::Tuple => {
                    s.append("(");
                    s.append(names.as_str());
                    s.append(")");
                },
                CallShape::Struct => {
                    s.append(" { ");
                    s.append(names.as_str());
                    s.append(" }");
                },
                CallShape::Unit => {},
            }
            s.append("), }) }");
            proof {
                let a = m@.args;
                let r = request_code(call.variant@, call.shape, a);
                assert(s@ =~= "fn "@ + m@.name + params_code(m.shape, a)
                    + " -> Result<(), Box<dyn std::error::Error>> { self.send_message(Message { id: self.generate_request_id(), origin: Origin::Client, payload: Payload::Request("@
                    + r + "), }) }"@);
            }
        },
        None => {
            s.append(" -> Res;");
        },
    }
    s
}

/// The code of the service trait.
fn service_trait_text(trait_name: &String, methods: &Vec<ServiceMethod>) -> (s: String)
    ensures
        s@ == service_trait_code(trait_name@, service_methods_view(methods@)),
{
    let mut r: Vec<String> = Vec::new();
    let ghost codes = service_methods_view(methods@).map_values(
        |m: ServiceMethodView| service_method_code(m),
    );
    let mut i: usize = 0;
    while i < methods.len()
        invariant
            i <= methods.len(),
            codes == service_methods_view(methods@).map_values(
                |m: ServiceMethodView| service_method_code(m),
            ),
            texts(r@) == codes.take(i as int),
        decreases methods.len() - i,
    {
        let ghost before = r@;
        let item = service_method_text(&methods[i]);
        r.push(item);
        proof {
            assert(texts(r@) =~= texts(before).push(item@));
            assert(codes.take(i + 1) =~= codes.take(i as int).push(item@));
        }
        i = i + 1;
    }
    assert(codes.take(methods.len() as int) =~= codes);
    let list = join_texts(&r, " ");
    let mut s = String::from_str("pub trait ");
    s.append(trait_name.as_str());
    s.append(
        " { async fn send_client_message(&self, message: Message) -> Result<(), Box<dyn std::error::Error>>; async fn on_request_payload(&mut self, payload: Req) -> Res; async fn on_response_payload(&mut self, payload: Res); ",
    );
    s.append(list.as_str());
    s.append(" }\n");
    s
}

/// The code of the client trait.
fn client_trait_text(trait_name: &String, methods: &Vec<ClientMethod>) -> (s: String)
    ensures
        s@ == client_trait_code(trait_name@, client_methods_view(methods@)),
{
    let mut r: Vec<String> = Vec::new();
    let ghost codes = client_methods_view(methods@).map_values(
        |m: ClientMethodView| client_method_code(m),
    );
    let mut i: usize = 0;
    while i < methods.len()
        invariant
            i <= methods.len(),
            codes == client_methods_view(methods@).map_values(
                |m: ClientMethodView| client_method_code(m),
            ),
            texts(r@) == codes.take(i as int),
        decreases methods.len() - i,
    {
        let ghost before = r@;
        let item = client_method_text(&methods[i]);
        r.push(item);
        proof {
            assert(texts(r@) =~= texts(before).push(item@));
            assert(codes.take(i + 1) =~= codes.take(i as int).push(item@));
        }
        i = i + 1;
    }
    assert(codes.take(methods.len() as int) =~= codes);
    let list = join_texts(&r, " ");
    let mut s = String::from_str("pub trait ");
    s.append(trait_name.as_str());
    s.append(
        " { fn send_message(&self, request: Message) -> Result<(), Box<dyn std::error::Error>>; fn generate_request_id(&self) -> u32; ",
    );
    s.append(list.as_str());
    s.append(" }\n");
    s
}

/// The shared types' code, or nothing.
fn shared_text(t: &Option<RpcTypes>) -> (s: String)
    ensures
        s@ == shared_code(*t),
{
    match t {
        Some(x) => x.code.clone(),
        None => String::new(),
    }
}

/// The payload enums' code, or nothing.
fn enums_text(p: &Option<PayloadEnums>) -> (s: String)
    ensures
        s@ == enums_code(*p),
{
    match p {
        Some(x) => x.code.clone(),
        None => String::new(),
    }
}

/// The views of a list of service methods.
pub open spec fn service_methods_view(v: Seq<ServiceMethod>) -> Seq<ServiceMethodView> {
    v.map_values(|m: ServiceMethod| m@)
}

/// The views of a list of client methods.
pub open spec fn client_methods_view(v: Seq<ClientMethod>) -> Seq<ClientMethodView> {
    v.map_values(|m: ClientMethod| m@)
}

/// Whether a derive's shared types and payload enums are what the emitted-types set
/// `g` before it calls for.
pub open spec fn emits_as_owed(
    name: Seq<char>,
    vs: Seq<VariantDef>,
    format: Option<crate::attrs::SerializationFormat>,
    g: Set<Seq<char>>,
    rpc_types: Option<RpcTypes>,
    payload: Option<PayloadEnums>,
) -> bool {
    &&& g.contains("Message"@) ==> rpc_types is None
    &&& !g.contains("Message"@) ==> (rpc_types matches Some(t) && t@ == rpc_types_of(name, format))
    &&& with_shared_types(g).contains("Req"@) ==> payload is None
    &&& !with_shared_types(g).contains("Req"@) ==> (payload matches Some(p) && p@ == payload_of(
        name,
        vs,
        format,
    ))
}

/// The two traits pair up call by call: for the `k`-th call (the `k`-th variant of
/// `Req`) exactly one side answers it with `Res` under `handle_<call>_request`, and the
/// other side has the method that starts it, with the same arguments: a client sends
/// the request of a call that the service handles, and the service takes the response
/// of a call that clients handle.
pub proof fn lemma_calls_pair_up(vs: Seq<VariantDef>)
    ensures
        service_methods(vs).len() == request_enum(vs).len(),
        client_methods(vs).len() == request_enum(vs).len(),
        forall|k: int|
            0 <= k < request_enum(vs).len() ==> {
                let s = #[trigger] service_methods(vs)[k];
                let c = client_methods(vs)[k];
                let req = request_enum(vs)[k];
                &&& s.args == args_of(req.fields)
                &&& c.args == args_of(req.fields)
                &&& s.returns_response <==> c.sends is Some
                &&& s.returns_response ==> s.name == handler_name(req.name) && c.sends == Some(
                    (req.name, shape_of(req.fields)),
                ) && c.name == snake_case(req.name)
                &&& !s.returns_response ==> c.name == handler_name(req.name) && s.name
                    == response_name(req.name)
            },
{
}

/// Deriving both traits on a definition emits the shared types and the payload enums
/// once: after a derive that went past reading the variants, whatever was emitted
/// before it, a later derive emits neither.
pub proof fn lemma_shared_items_emitted_once(
    g: Set<Seq<char>>,
    name: Seq<char>,
    vs: Seq<VariantDef>,
    format: Option<crate::attrs::SerializationFormat>,
    rpc_types: Option<RpcTypes>,
    payload: Option<PayloadEnums>,
)
    requires
        emits_as_owed(name, vs, format, with_payload_enums(with_shared_types(g)), rpc_types, payload),
    ensures
        rpc_types is None,
        payload is None,
{
}

/// The parameters that a method for a call with fields `f` declares, written out from
/// the fields themselves: `(&self)` for a unit variant; `(&self, arg0: T0, arg1: T1, ..)`
/// for unnamed fields `T0, T1, ..`, the `i`-th parameter named `arg<i>` with the `i`-th
/// type; `(&self, a: A, b: B, ..)` for named fields, in the order they are declared.
pub open spec fn declared_params(f: FieldsView) -> Seq<char> {
    match f {
        FieldsView::Unnamed(tys) => "(&self, "@ + join(
            Seq::new(tys.len(), |i: int| "arg"@ + decimal(i as nat) + ": "@ + tys[i]),
            ", "@,
        ) + ")"@,
        FieldsView::Named(fs) => "(&self, "@ + join(
            Seq::new(fs.len(), |i: int| fs[i].0 + ": "@ + fs[i].1),
            ", "@,
        ) + ")"@,
        FieldsView::Unit => "(&self)"@,
    }
}

/// The request that a client sends for the call `name` with fields `f`, written out
/// from the fields themselves: `Req::name(arg0, arg1, ..)`, whose `i`-th field is the
/// `i`-th parameter; `Req::name { a, b, .. }` with the fields in declared order; or
/// `Req::name`.
pub open spec fn declared_request(name: Seq<char>, f: FieldsView) -> Seq<char> {
    match f {
        FieldsView::Unnamed(tys) => "Req::"@ + name + "("@ + join(
            Seq::new(tys.len(), |i: int| "arg"@ + decimal(i as nat)),
            ", "@,
        ) + ")"@,
        FieldsView::Named(fs) => "Req::"@ + name + " { "@ + join(
            Seq::new(fs.len(), |i: int| fs[i].0),
            ", "@,
        ) + " }"@,
        FieldsView::Unit => "Req::"@ + name,
    }
}

proof fn lemma_declared_forms(name: Seq<char>, f: FieldsView)
    ensures
        params_code(shape_of(f), args_of(f)) == declared_params(f),
        request_code(name, shape_of(f), args_of(f)) == declared_request(name, f),
{
    match f {
        FieldsView::Unnamed(tys) => {
            assert(typed_list(args_of(f)) =~= Seq::new(
                tys.len(),
                |i: int| "arg"@ + decimal(i as nat) + ": "@ + tys[i],
            ));
            assert(arg_names(args_of(f)) =~= Seq::new(tys.len(), |i: int| "arg"@ + decimal(i as nat)));
        },
        FieldsView::Named(fs) => {
            assert(typed_list(fs) =~= Seq::new(fs.len(), |i: int| fs[i].0 + ": "@ + fs[i].1));
            assert(arg_names(fs) =~= Seq::new(fs.len(), |i: int| fs[i].0));
        },
        FieldsView::Unit => {},
    }
}

/// Every method of the client trait declares its call's fields as parameters in their
/// order, and a method that sends passes them on in that same order: for the `k`-th
/// call `V` with unnamed fields `T0, .., Tn`, the method is
/// `fn v(&self, arg0: T0, .., argn: Tn)` and sends `Req::V(arg0, .., argn)`, so the
/// `i`-th field of the request is the `i`-th argument; with named fields it sends
/// `Req::V { a, b, .. }`. A call that clients handle is declared as
/// `fn handle_v_request(<the same parameters>) -> Res;`.
pub proof fn lemma_client_methods_pass_arguments_in_order(vs: Seq<VariantDef>)
    ensures
        client_methods(vs).len() == request_enum(vs).len(),
        forall|k: int|
            0 <= k < request_enum(vs).len() ==> {
                let c = #[trigger] client_methods(vs)[k];
                let req = request_enum(vs)[k];
                &&& c.sends is Some ==> client_method_code(c) == "fn "@ + snake_case(req.name)
                    + declared_params(req.fields)
                    + " -> Result<(), Box<dyn std::error::Error>> { self.send_message(Message { id: self.generate_request_id(), origin: Origin::Client, payload: Payload::Request("@
                    + declared_request(req.name, req.fields) + "), }) }"@
                &&& c.sends is None ==> client_method_code(c) == "fn "@ + handler_name(req.name)
                    + declared_params(req.fields) + " -> Res;"@
            },
{
    lemma_calls_pair_up(vs);
    assert forall|k: int| 0 <= k < request_enum(vs).len() implies {
        let c = #[trigger] client_methods(vs)[k];
        let req = request_enum(vs)[k];
        &&& c.sends is Some ==> client_method_code(c) == "fn "@ + snake_case(req.name)
            + declared_params(req.fields)
            + " -> Result<(), Box<dyn std::error::Error>> { self.send_message(Message { id: self.generate_request_id(), origin: Origin::Client, payload: Payload::Request("@
            + declared_request(req.name, req.fields) + "), }) }"@
        &&& c.sends is None ==> client_method_code(c) == "fn "@ + handler_name(req.name)
            + declared_params(req.fields) + " -> Res;"@
    } by {
        let c = client_methods(vs)[k];
        let req = request_enum(vs)[k];
        assert(c.shape == shape_of(req.fields));
        lemma_declared_forms(req.name, req.fields);
    }
}

/// Every method of the service trait, the handler of a call that the service handles
/// and the response method of a call that clients handle alike, declares the call's
/// fields as its parameters, in their order: for the `k`-th call `V` it reads
/// `async fn handle_v_request<params> -> Res;` or `async fn on_v_response<params>;`,
/// where `<params>` is `(&self, arg0: T0, ..)` (or `(&self, a: A, ..)`, or `(&self)`
/// for a unit variant) from the fields of `V`.
pub proof fn lemma_service_methods_declare_call_arguments(vs: Seq<VariantDef>)
    ensures
        service_methods(vs).len() == request_enum(vs).len(),
        forall|k: int|
            0 <= k < request_enum(vs).len() ==> {
                let s = #[trigger] service_methods(vs)[k];
                let req = request_enum(vs)[k];
                &&& s.returns_response ==> service_method_code(s) == "async fn "@
                    + handler_name(req.name) + declared_params(req.fields) + " -> Res;"@
                &&& !s.returns_response ==> service_method_code(s) == "async fn "@
                    + response_name(req.name) + declared_params(req.fields) + ";"@
            },
{
    lemma_calls_pair_up(vs);
    assert forall|k: int| 0 <= k < request_enum(vs).len() implies {
        let s = #[trigger] service_methods(vs)[k];
        let req = request_enum(vs)[k];
        &&& s.returns_response ==> service_method_code(s) == "async fn "@ + handler_name(req.name)
            + declared_params(req.fields) + " -> Res;"@
        &&& !s.returns_response ==> service_method_code(s) == "async fn "@ + response_name(
            req.name,
        ) + declared_params(req.fields) + ";"@
    } by {
        let s = service_methods(vs)[k];
        let req = request_enum(vs)[k];
        assert(s.shape == shape_of(req.fields));
        lemma_declared_forms(req.name, req.fields);
    }
}

/// The shape of a variant's fields.
fn fields_shape(fields: &Fields) -> (shape: CallShape)
    ensures
        shape == shape_of(fields@),
{
    match fields {
        Fields::Unnamed(_) => CallShape::Tuple,
        Fields::Named(_) => CallShape::Struct,
        Fields::Unit => CallShape::Unit,
    }
}

/// The service method for one call.
fn service_method(variants: &Vec<VariantDef>, c: RpcVariant) -> (m: ServiceMethod)
    requires
        c.index < variants.len(),
    ensures
        m@ == service_method_of(variants@, (c.index as int, c.kind)),
{
    let v = &variants[c.index];
    let name = if c.kind == RpcKind::Service {
        handler_method_name(v.name.as_str())
    } else {
        response_method_name(v.name.as_str())
    };
    ServiceMethod {
        name,
        args: method_args(&v.fields),
        shape: fields_shape(&v.fields),
        returns_response: c.kind == RpcKind::Service,
    }
}

/// The client method for one call.
fn client_method(variants: &Vec<VariantDef>, c: RpcVariant) -> (m: ClientMethod)
    requires
        c.index < variants.len(),
    ensures
        m@ == client_method_of(variants@, (c.index as int, c.kind)),
{
    let v = &variants[c.index];
    let shape = fields_shape(&v.fields);
    if c.kind == RpcKind::Service {
        ClientMethod {
            name: to_snake_case(v.name.as_str()),
            args: method_args(&v.fields),
            shape,
            sends: Some(RequestCall { variant: v.name.clone(), shape }),
        }
    } else {
        ClientMethod {
            name: handler_method_name(v.name.as_str()),
            args: method_args(&v.fields),
            shape,
            sends: None,
        }
    }
}

proof fn lemma_calls_in_bounds(vs: Seq<VariantDef>, rpcs: Seq<RpcVariant>)
    requires
        rpcs_view(rpcs) == rpc_variants(vs, vs.len() as int),
    ensures
        forall|k: int| 0 <= k < rpcs.len() ==> #[trigger] rpcs[k].index < vs.len(),
{
    crate::payload::lemma_rpc_variants_bounds(vs, vs.len() as int);
    assert forall|k: int| 0 <= k < rpcs.len() implies #[trigger] rpcs[k].index < vs.len() by {
        assert(rpcs_view(rpcs)[k].0 == rpcs[k].index as int);
        assert(0 <= rpc_variants(vs, vs.len() as int)[k].0 < vs.len());
    }
}

/// What `#[derive(RpcService)]` emits for the enum `name` with attributes `attrs` and
/// variants `variants`: the serialization option is read first, then the shared
/// types and the payload enums are asked for (each emitted only once per
/// compilation, as `generated` records), then the service trait gets one method per
/// call.
pub fn service_impl(
    name: &str,
    attrs: &Vec<EnumAttr>,
    variants: &Vec<VariantDef>,
    generated: &mut GeneratedTypes,
) -> (r: Result<ServiceDerive, SchemaError>)
    requires
        !option_meets_serde(attrs@, 0),
    ensures
        match serialization_option_from(attrs@, 0) {
            Err(e) => (r matches Err(x) && x@ == e) && final(generated)@ == old(generated)@,
            Ok(format) => match first_kind_error(variants@, 0) {
                Some(e) => {
                    &&& r matches Err(x) && x@ == e
                    &&& final(generated)@ == with_shared_types(old(generated)@)
                },
                None => {
                    &&& r matches Ok(d) && {
                        &&& emits_as_owed(name@, variants@, format, old(generated)@, d.rpc_types, d.payload)
                        &&& d.trait_name@ == name@ + "Service"@
                        &&& service_methods_view(d.methods@) == service_methods(variants@)
                        &&& d.code@ == shared_code(d.rpc_types) + enums_code(d.payload)
                            + service_trait_code(name@ + "Service"@, service_methods(variants@))
                    }
                    &&& final(generated)@ == with_payload_enums(with_shared_types(old(generated)@))
                },
            },
        },
{
    let format = match extract_serialization_option(attrs) {
        Ok(f) => f,
        Err(e) => return Err(e),
    };
    let rpc_types = generate_rpc_request_response(name, format, generated);
    proof {
        assert(generated@ =~= with_shared_types(old(generated)@));
    }
    let ghost g1 = generated@;
    let (rpcs, payload) = match generate_payload_enums(name, variants, format, generated) {
        Ok(x) => x,
        Err(e) => return Err(e),
    };
    proof {
        assert(generated@ =~= with_payload_enums(g1));
        lemma_calls_in_bounds(variants@, rpcs@);
    }
    let ghost calls = rpc_variants(variants@, variants.len() as int);
    let mut methods: Vec<ServiceMethod> = Vec::new();
    let mut i: usize = 0;
    while i < rpcs.len()
        invariant
            i <= rpcs.len(),
            rpcs_view(rpcs@) == calls,
            calls == rpc_variants(variants@, variants.len() as int),
            forall|k: int| 0 <= k < rpcs.len() ==> #[trigger] rpcs@[k].index < variants.len(),
            service_methods_view(methods@) == service_methods(variants@).take(i as int),
        decreases rpcs.len() - i,
    {
        let ghost before = methods@;
        let m = service_method(variants, rpcs[i]);
        methods.push(m);
        proof {
            assert(calls[i as int] == (rpcs@[i as int].index as int, rpcs@[i as int].kind));
            assert(service_methods_view(methods@) =~= service_methods_view(before).push(m@));
            assert(service_methods(variants@).take(i + 1) =~= service_methods(variants@).take(
                i as int,
            ).push(m@));
        }
        i = i + 1;
    }
    assert(service_methods(variants@).take(rpcs.len() as int) =~= service_methods(variants@));
    let trait_name = joined(name, "Service");
    let mut code = shared_text(&rpc_types);
    code.append(enums_text(&payload).as_str());
    code.append(service_trait_text(&trait_name, &methods).as_str());
    Ok(ServiceDerive { rpc_types, payload, trait_name, methods, code })
}

/// What `#[derive(RpcClient)]` emits for the enum `name`: like the service derive, the
/// option, the shared types and the payload enums come first; then the client trait
/// gets one method per call.
pub fn client_impl(
    name: &str,
    attrs: &Vec<EnumAttr>,
    variants: &Vec<VariantDef>,
    generated: &mut GeneratedTypes,
) -> (r: Result<ClientDerive, SchemaError>)
    requires
        !option_meets_serde(attrs@, 0),
    ensures
        match serialization_option_from(attrs@, 0) {
            Err(e) => (r matches Err(x) && x@ == e) && final(generated)@ == old(generated)@,
            Ok(format) => match first_kind_error(variants@, 0) {
                Some(e) => {
                    &&& r matches Err(x) && x@ == e
                    &&& final(generated)@ == with_shared_types(old(generated)@)
                },
                None => {
                    &&& r matches Ok(d) && {
                        &&& emits_as_owed(name@, variants@, format, old(generated)@, d.rpc_types, d.payload)
                        &&& d.trait_name@ == name@ + "Client"@
                        &&& client_methods_view(d.methods@) == client_methods(variants@)
                        &&& d.code@ == shared_code(d.rpc_types) + enums_code(d.payload)
                            + client_trait_code(name@ + "Client"@, client_methods(variants@))
                    }
                    &&& final(generated)@ == with_payload_enums(with_shared_types(old(generated)@))
                },
            },
        },
{
    let format = match extract_serialization_option(attrs) {
        Ok(f) => f,
        Err(e) => return Err(e),
    };
    let rpc_types = generate_rpc_request_response(name, format, generated);
    proof {
        assert(generated@ =~= with_shared_types(old(generated)@));
    }
    let ghost g1 = generated@;
    let (rpcs, payload) = match generate_payload_enums(name, variants, format, generated) {
        Ok(x) => x,
        Err(e) => return Err(e),
    };
    proof {
        assert(generated@ =~= with_payload_enums(g1));
        lemma_calls_in_bounds(variants@, rpcs@);
    }
    let ghost calls = rpc_variants(variants@, variants.len() as int);
    let mut methods: Vec<ClientMethod> = Vec::new();
    let mut i: usize = 0;
    while i < rpcs.len()
        invariant
            i <= rpcs.len(),
            rpcs_view(rpcs@) == calls,
            calls == rpc_variants(variants@, variants.len() as int),
            forall|k: int| 0 <= k < rpcs.len() ==> #[trigger] rpcs@[k].index < variants.len(),
            client_methods_view(methods@) == client_methods(variants@).take(i as int),
        decreases rpcs.len() - i,
    {
        let ghost before = methods@;
        let m = client_method(variants, rpcs[i]);
        methods.push(m);
        proof {
            assert(calls[i as int] == (rpcs@[i as int].index as int, rpcs@[i as int].kind));
            assert(client_methods_view(methods@) =~= client_methods_view(before).push(m@));
            assert(client_methods(variants@).take(i + 1) =~= client_methods(variants@).take(
                i as int,
            ).push(m@));
        }
        i = i + 1;
    }
    assert(client_methods(variants@).take(rpcs.len() as int) =~= client_methods(variants@));
    let trait_name = joined(name, "Client");
    let mut code = shared_text(&rpc_types);
    code.append(enums_text(&payload).as_str());
    code.append(client_trait_text(&trait_name, &methods).as_str());
    Ok(ClientDerive { rpc_types, payload, trait_name, methods, code })
}

} // verus!
