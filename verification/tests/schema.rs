use rpc_ipc::attrs::{
    asks_for_serde,
    extract_serialization_option, extract_variant_attributes, EnumAttr, EnumAttrMeta, NestedMeta,
    NestedMetas, SerializationFormat, VariantAttr, VariantAttrMeta, VariantKind,
};
use rpc_ipc::payload::{generate_payload_enums, Fields, NamedField, RpcKind, VariantDef};
use rpc_ipc::rpc_traits::{client_impl, service_impl, CallShape};
use rpc_ipc::rpc_types::{generate_rpc_request_response, serialization_derives, GeneratedTypes};

fn s(x: &str) -> String {
    x.to_string()
}

fn option_list(path: &str, entries: Vec<NestedMeta>, error: Option<&str>) -> EnumAttr {
    EnumAttr {
        path: Some(s(path)),
        meta: EnumAttrMeta::List(NestedMetas { entries, error: error.map(s) }),
    }
}

fn bincode_attrs() -> Vec<EnumAttr> {
    vec![option_list("rpc_service", vec![NestedMeta::Serialize(s("bincode"))], None)]
}

fn variant(name: &str, attrs: Vec<VariantAttr>, fields: Fields) -> VariantDef {
    VariantDef { name: s(name), attrs, fields }
}

fn response_attr(names: &[&str]) -> VariantAttr {
    VariantAttr {
        path: Some(s("response")),
        meta: VariantAttrMeta::List(Ok(names.iter().map(|n| s(n)).collect())),
    }
}

fn client_attr() -> VariantAttr {
    VariantAttr { path: Some(s("client")), meta: VariantAttrMeta::NotList(s("expected list")) }
}

/// The definition of `rpc_ipc::Packet`: `Message(u32, Option<String>, String)`.
fn packet() -> Vec<VariantDef> {
    vec![variant(
        "Message",
        vec![],
        Fields::Unnamed(vec![s("u32"), s("Option<String>"), s("String")]),
    )]
}

#[test]
fn serialization_option_bincode() {
    let r = extract_serialization_option(&bincode_attrs());
    assert_eq!(r.ok(), Some(Some(SerializationFormat::Bincode)));
}

#[test]
fn serialization_option_absent() {
    let attrs = vec![
        EnumAttr { path: Some(s("doc")), meta: EnumAttrMeta::Other },
        EnumAttr { path: Some(s("rpc_service")), meta: EnumAttrMeta::Other },
        option_list("allow", vec![NestedMeta::Serialize(s("nonsense"))], None),
    ];
    assert_eq!(extract_serialization_option(&attrs).ok(), Some(None));
    assert_eq!(extract_serialization_option(&vec![]).ok(), Some(None));
}

#[test]
fn serialization_option_first_list_decides() {
    let attrs = vec![
        option_list("rpc_client", vec![NestedMeta::Other], None),
        option_list("rpc_service", vec![NestedMeta::Serialize(s("bincode"))], None),
    ];
    assert_eq!(extract_serialization_option(&attrs).ok(), Some(None));
}

#[test]
fn serialization_option_unknown_value() {
    let attrs = vec![
        EnumAttr { path: Some(s("doc")), meta: EnumAttrMeta::Other },
        option_list(
            "rpc_service",
            vec![NestedMeta::Serialize(s("bincode")), NestedMeta::Serialize(s("json"))],
            Some("expected `,`"),
        ),
    ];
    let e = extract_serialization_option(&attrs).err().unwrap();
    assert_eq!(e.variant, None);
    assert_eq!(e.attr, 1);
    assert_eq!(e.message, "'serialize' option expects one of: \"bincode\" | \"serde\" ");
}

#[test]
fn serialization_option_parse_error() {
    let attrs = vec![option_list(
        "rpc_service",
        vec![NestedMeta::Serialize(s("bincode"))],
        Some("expected string literal"),
    )];
    let e = extract_serialization_option(&attrs).err().unwrap();
    assert_eq!(e.attr, 0);
    assert_eq!(e.message, "expected string literal");
}

#[test]
fn variant_kinds() {
    assert!(matches!(extract_variant_attributes(&vec![]), Ok(VariantKind::ServiceRpc)));
    let doc = VariantAttr { path: Some(s("doc")), meta: VariantAttrMeta::NotList(s("x")) };
    assert!(matches!(
        extract_variant_attributes(&vec![doc, client_attr()]),
        Ok(VariantKind::ClientRpc)
    ));
    match extract_variant_attributes(&vec![response_attr(&["Sum", "Multiply"]), client_attr()]) {
        Ok(VariantKind::Response(names)) => assert_eq!(names, vec![s("Sum"), s("Multiply")]),
        _ => panic!("expected a response variant"),
    }
}

#[test]
fn variant_kind_errors() {
    let not_list = VariantAttr {
        path: Some(s("response")),
        meta: VariantAttrMeta::NotList(s("expected attribute arguments in parentheses: `response(...)`")),
    };
    let e = extract_variant_attributes(&vec![client_attr_other(), not_list]).err().unwrap();
    assert_eq!(e.attr, 1);
    assert_eq!(e.message, "expected attribute arguments in parentheses: `response(...)`");

    let bad_args = VariantAttr {
        path: Some(s("response")),
        meta: VariantAttrMeta::List(Err(s("expected string literal"))),
    };
    let e = extract_variant_attributes(&vec![bad_args]).err().unwrap();
    assert_eq!(e.attr, 0);
    assert_eq!(
        e.message,
        "expected string literal, 'response' expects a comma separated list of Variant names"
    );
}

fn client_attr_other() -> VariantAttr {
    VariantAttr { path: Some(s("allow")), meta: VariantAttrMeta::List(Ok(vec![])) }
}

#[test]
fn derives_by_format() {
    assert_eq!(
        serialization_derives(Some(SerializationFormat::Bincode)),
        vec![s("::bincode::Encode"), s("::bincode::Decode"), s("Debug"), s("Clone")]
    );
    assert_eq!(
        serialization_derives(Some(SerializationFormat::Serde)),
        vec![s("::serde::Serialize"), s("::serde::Deserialize"), s("Debug"), s("Clone")]
    );
    assert_eq!(serialization_derives(None), vec![s("Debug"), s("Clone")]);
}

#[test]
fn shared_types_are_emitted_once() {
    let mut g = GeneratedTypes::new();
    let t = generate_rpc_request_response("TestRPC", None, &mut g).unwrap();
    assert_eq!(t.error_kind_type, "TestRPCErrorKind");
    assert_eq!(t.error_type, "TestRPCError");
    assert_eq!(t.derives, vec![s("Debug"), s("Clone")]);
    assert!(g.contains("Message"));
    assert!(generate_rpc_request_response("Other", None, &mut g).is_none());
}

#[test]
fn payload_enums_of_packet() {
    let mut g = GeneratedTypes::new();
    let (rpcs, payload) =
        generate_payload_enums("TestRPC", &packet(), Some(SerializationFormat::Bincode), &mut g)
            .ok()
            .unwrap();
    assert_eq!(rpcs.len(), 1);
    assert_eq!(rpcs[0].index, 0);
    assert_eq!(rpcs[0].kind, RpcKind::Service);
    let p = payload.unwrap();
    assert_eq!(p.request.len(), 1);
    assert_eq!(p.request[0].name, "Message");
    match &p.request[0].fields {
        Fields::Unnamed(tys) => assert_eq!(tys, &vec![s("u32"), s("Option<String>"), s("String")]),
        _ => panic!("expected unnamed fields"),
    }
    assert_eq!(p.response.len(), 1);
    assert_eq!(p.response[0].name, "Message");
    assert!(matches!(&p.response[0].fields, Fields::Unnamed(t) if t.len() == 3));
    assert_eq!(p.error_type, "TestRPCError");
    assert_eq!(p.derives[0], "::bincode::Encode");
    assert!(g.contains("Req") && g.contains("Res"));

    let (rpcs2, payload2) =
        generate_payload_enums("TestRPC", &packet(), None, &mut g).ok().unwrap();
    assert_eq!(rpcs2.len(), 1);
    assert!(payload2.is_none());
}

#[test]
fn payload_enums_with_responses_and_client_calls() {
    let variants = vec![
        variant("Sum", vec![], Fields::Unnamed(vec![s("f32"), s("f32")])),
        variant(
            "Login",
            vec![],
            Fields::Named(vec![NamedField { name: s("user"), ty: s("String") }]),
        ),
        variant("Ping", vec![client_attr()], Fields::Unnamed(vec![s("u128")])),
        variant("Number", vec![response_attr(&["Sum", "Nothing"])], Fields::Unnamed(vec![s("f32")])),
        variant("Ack", vec![response_attr(&["Login", "Sum"])], Fields::Unit),
    ];
    let mut g = GeneratedTypes::new();
    let (rpcs, payload) = generate_payload_enums("Api", &variants, None, &mut g).ok().unwrap();
    let kinds: Vec<(usize, RpcKind)> = rpcs.iter().map(|r| (r.index, r.kind)).collect();
    assert_eq!(kinds, vec![(0, RpcKind::Service), (1, RpcKind::Service), (2, RpcKind::Client)]);
    let p = payload.unwrap();
    let names: Vec<&str> = p.request.iter().map(|v| v.name.as_str()).collect();
    assert_eq!(names, vec!["Sum", "Login", "Ping"]);
    let names: Vec<&str> = p.response.iter().map(|v| v.name.as_str()).collect();
    assert_eq!(names, vec!["Sum", "Login", "Ping"]);
    // The last variant naming `Sum` as its call wins: `Ack`, a unit variant.
    assert!(matches!(p.response[0].fields, Fields::Unit));
    assert!(matches!(p.response[1].fields, Fields::Unit));
    // `Ping` has no declared response: its own fields.
    assert!(matches!(&p.response[2].fields, Fields::Unnamed(t) if t == &vec![s("u128")]));
    assert_eq!(p.error_type, "ApiError");
}

#[test]
fn payload_enums_report_the_faulty_variant() {
    let bad = VariantAttr {
        path: Some(s("response")),
        meta: VariantAttrMeta::List(Err(s("unexpected token"))),
    };
    let variants = vec![
        variant("Sum", vec![], Fields::Unit),
        variant("Number", vec![bad], Fields::Unit),
    ];
    let mut g = GeneratedTypes::new();
    let e = generate_payload_enums("Api", &variants, None, &mut g).err().unwrap();
    assert_eq!(e.variant, Some(1));
    assert_eq!(e.attr, 0);
    assert!(!g.contains("Req"));
}

#[test]
fn service_and_client_traits_of_packet() {
    let mut g = GeneratedTypes::new();
    let d = service_impl("TestRPC", &bincode_attrs(), &packet(), &mut g).ok().unwrap();
    assert_eq!(d.trait_name, "TestRPCService");
    assert!(d.rpc_types.is_some());
    assert!(d.payload.is_some());
    assert_eq!(d.methods.len(), 1);
    assert_eq!(d.methods[0].name, "handle_message_request");
    assert!(d.methods[0].returns_response);
    let args: Vec<(String, String)> =
        d.methods[0].args.iter().map(|a| (a.name.clone(), a.ty.clone())).collect();
    assert_eq!(
        args,
        vec![(s("arg0"), s("u32")), (s("arg1"), s("Option<String>")), (s("arg2"), s("String"))]
    );

    let c = client_impl("TestRPC", &bincode_attrs(), &packet(), &mut g).ok().unwrap();
    assert_eq!(c.trait_name, "TestRPCClient");
    assert!(c.rpc_types.is_none());
    assert!(c.payload.is_none());
    assert_eq!(c.methods.len(), 1);
    assert_eq!(c.methods[0].name, "message");
    let sends = c.methods[0].sends.as_ref().unwrap();
    assert_eq!(sends.variant, "Message");
    assert_eq!(sends.shape, CallShape::Tuple);
    assert_eq!(c.methods[0].args.len(), 3);
}

#[test]
fn client_calls_become_response_methods() {
    let variants = vec![
        variant("Ping", vec![client_attr()], Fields::Unnamed(vec![s("u128")])),
        variant(
            "Login",
            vec![],
            Fields::Named(vec![NamedField { name: s("user"), ty: s("String") }]),
        ),
        variant("Quit", vec![], Fields::Unit),
    ];
    let mut g = GeneratedTypes::new();
    let d = service_impl("Api", &vec![], &variants, &mut g).ok().unwrap();
    let names: Vec<&str> = d.methods.iter().map(|m| m.name.as_str()).collect();
    assert_eq!(names, vec!["on_ping_response", "handle_login_request", "handle_quit_request"]);
    assert!(!d.methods[0].returns_response);
    assert_eq!(d.methods[1].args[0].name, "user");
    assert!(d.methods[2].args.is_empty());

    let c = client_impl("Api", &vec![], &variants, &mut g).ok().unwrap();
    let names: Vec<&str> = c.methods.iter().map(|m| m.name.as_str()).collect();
    assert_eq!(names, vec!["handle_ping_request", "login", "quit"]);
    assert!(c.methods[0].sends.is_none());
    assert_eq!(c.methods[1].sends.as_ref().unwrap().shape, CallShape::Struct);
    assert_eq!(c.methods[2].sends.as_ref().unwrap().shape, CallShape::Unit);
    assert_eq!(c.methods[0].args[0].name, "arg0");
}

#[test]
fn derive_errors_leave_payload_state_alone() {
    let attrs = vec![option_list("rpc_service", vec![NestedMeta::Serialize(s("xml"))], None)];
    let mut g = GeneratedTypes::new();
    let e = service_impl("Api", &attrs, &packet(), &mut g).err().unwrap();
    assert_eq!(e.attr, 0);
    assert!(!g.contains("Message"));
}

#[test]
fn serde_is_detected_before_deriving() {
    let serde = vec![option_list(
        "rpc_client",
        vec![NestedMeta::Other, NestedMeta::Serialize(s("serde"))],
        None,
    )];
    assert!(asks_for_serde(&serde));
    assert!(!asks_for_serde(&bincode_attrs()));
    let after_error = vec![option_list(
        "rpc_client",
        vec![NestedMeta::Serialize(s("json")), NestedMeta::Serialize(s("serde"))],
        None,
    )];
    assert!(!asks_for_serde(&after_error));
}
