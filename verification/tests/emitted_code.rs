use proc_macro2::TokenStream;
use rpc_ipc::attrs::{EnumAttr, EnumAttrMeta, NestedMeta, NestedMetas, VariantAttr, VariantAttrMeta};
use rpc_ipc::payload::{generate_payload_enums, Fields, NamedField, VariantDef};
use rpc_ipc::rpc_traits::{client_impl, service_impl};
use rpc_ipc::rpc_types::{generate_rpc_request_response, GeneratedTypes};

fn s(x: &str) -> String {
    x.to_string()
}

fn tokens(text: &str) -> String {
    text.parse::<TokenStream>().unwrap().to_string()
}

fn test_enum() -> Vec<VariantDef> {
    vec![
        VariantDef { name: s("AddOne"), attrs: vec![], fields: Fields::Unnamed(vec![s("u32")]) },
        VariantDef {
            name: s("Ping"),
            attrs: vec![VariantAttr {
                path: Some(s("client")),
                meta: VariantAttrMeta::NotList(s("expected list")),
            }],
            fields: Fields::Unit,
        },
    ]
}

fn emitted_before() -> GeneratedTypes {
    let mut g = GeneratedTypes::new();
    g.insert("Message");
    g.insert("Req");
    g.insert("Res");
    g
}

#[test]
fn client_trait_code_after_shared_types() {
    let mut g = emitted_before();
    let d = client_impl("Test", &vec![], &test_enum(), &mut g).ok().unwrap();
    let expected = "pub trait TestClient { \
        fn send_message(&self, request: Message) -> Result<(), Box<dyn std::error::Error>>; \
        fn generate_request_id(&self) -> u32; \
        fn add_one(&self, arg0: u32) -> Result<(), Box<dyn std::error::Error>> { \
            self.send_message(Message { id: self.generate_request_id(), origin: Origin::Client, \
            payload: Payload::Request(Req::AddOne(arg0)), }) } \
        fn handle_ping_request(&self) -> Res; }";
    assert_eq!(tokens(&d.code), tokens(expected));
}

#[test]
fn service_trait_code_after_shared_types() {
    let mut g = emitted_before();
    let d = service_impl("Test", &vec![], &test_enum(), &mut g).ok().unwrap();
    let expected = "pub trait TestService { \
        async fn send_client_message(&self, message: Message) -> Result<(), Box<dyn std::error::Error>>; \
        async fn on_request_payload(&mut self, payload: Req) -> Res; \
        async fn on_response_payload(&mut self, payload: Res); \
        async fn handle_add_one_request(&self, arg0: u32) -> Res; \
        async fn on_ping_response(&self); }";
    assert_eq!(tokens(&d.code), tokens(expected));
}

#[test]
fn client_request_shapes() {
    let variants = vec![
        VariantDef {
            name: s("Login"),
            attrs: vec![],
            fields: Fields::Named(vec![
                NamedField { name: s("user"), ty: s("String") },
                NamedField { name: s("pin"), ty: s("u16") },
            ]),
        },
        VariantDef { name: s("Quit"), attrs: vec![], fields: Fields::Unit },
    ];
    let mut g = emitted_before();
    let d = client_impl("Api", &vec![], &variants, &mut g).ok().unwrap();
    let code = tokens(&d.code);
    assert!(code.contains(&tokens("payload: Payload::Request(Req::Login { user, pin }),")));
    assert!(code.contains(&tokens("fn login(&self, user: String, pin: u16)")));
    assert!(code.contains(&tokens("payload: Payload::Request(Req::Quit),")));
    assert!(code.contains(&tokens("fn quit(&self) -> Result<(), Box<dyn std::error::Error>>")));
}

#[test]
fn payload_enum_code() {
    let mut g = GeneratedTypes::new();
    let variants = vec![
        VariantDef {
            name: s("Sum"),
            attrs: vec![],
            fields: Fields::Unnamed(vec![s("f32"), s("f32")]),
        },
        VariantDef {
            name: s("Number"),
            attrs: vec![VariantAttr {
                path: Some(s("response")),
                meta: VariantAttrMeta::List(Ok(vec![s("Sum")])),
            }],
            fields: Fields::Unnamed(vec![s("f32")]),
        },
    ];
    let (_, p) = generate_payload_enums("Api", &variants, None, &mut g).ok().unwrap();
    let expected = "#[derive(Debug, Clone)] pub enum Req { Sum(f32, f32), } \
        #[derive(Debug, Clone)] pub enum Res { Sum(f32), Error(ApiError), } \
        #[derive(Debug, Clone)] pub enum Payload { Request(Req), Response(Res), }";
    assert_eq!(tokens(&p.unwrap().code), tokens(expected));
}

#[test]
fn shared_types_code() {
    let mut g = GeneratedTypes::new();
    let t = generate_rpc_request_response("TestRPC", None, &mut g).unwrap();
    let code = tokens(&t.code);
    assert!(code.starts_with(&tokens(
        "#[derive(Debug, Clone)] pub struct Message { pub id: u32, pub origin: Origin, pub payload: Payload, }"
    )));
    assert!(code.contains(&tokens("#[derive(PartialEq)] pub enum Origin { Service, Client, }")));
    assert!(code.contains(&tokens(
        "pub enum TestRPCErrorKind { Timeout, InvalidArgument, PermissionDenied, NotFound, Unimplemented, Unreachable, Internal, }"
    )));
    assert!(code.contains(&tokens(
        "pub fn new(error: TestRPCErrorKind) -> Self { Self { description: error.to_string(), error, } }"
    )));
    assert!(code.contains(&tokens("Self::Unreachable => write!(f, \"Unreachable\"),")));
}

#[test]
fn first_derive_emits_everything() {
    let attrs = vec![EnumAttr {
        path: Some(s("rpc_service")),
        meta: EnumAttrMeta::List(NestedMetas {
            entries: vec![NestedMeta::Serialize(s("bincode"))],
            error: None,
        }),
    }];
    let mut g = GeneratedTypes::new();
    let d = service_impl("Test", &attrs, &test_enum(), &mut g).ok().unwrap();
    let code = tokens(&d.code);
    assert!(code.starts_with(&tokens(
        "#[derive(::bincode::Encode, ::bincode::Decode, Debug, Clone)] pub struct Message"
    )));
    assert!(code.contains(&tokens("pub enum Payload { Request(Req), Response(Res), }")));
    assert!(d.code.trim_end().ends_with("async fn on_ping_response(&self); }"));
    let c = client_impl("Test", &attrs, &test_enum(), &mut g).ok().unwrap();
    assert!(tokens(&c.code).starts_with(&tokens("pub trait TestClient")));
}

#[test]
fn empty_field_lists_keep_the_comma() {
    let variants = vec![
        VariantDef { name: s("Tick"), attrs: vec![], fields: Fields::Unnamed(vec![]) },
        VariantDef { name: s("Tock"), attrs: vec![], fields: Fields::Named(vec![]) },
        VariantDef { name: s("Stop"), attrs: vec![], fields: Fields::Unit },
    ];
    let mut g = emitted_before();
    let d = service_impl("Clock", &vec![], &variants, &mut g).ok().unwrap();
    assert!(d.code.contains("async fn handle_tick_request(&self, ) -> Res;"));
    assert!(d.code.contains("async fn handle_tock_request(&self, ) -> Res;"));
    assert!(d.code.contains("async fn handle_stop_request(&self) -> Res;"));
    let c = client_impl("Clock", &vec![], &variants, &mut g).ok().unwrap();
    assert!(c.code.contains("fn tick(&self, ) -> Result"));
    assert!(c.code.contains("Payload::Request(Req::Tick())"));
    assert!(c.code.contains("Payload::Request(Req::Tock {  })"));
    assert!(c.code.contains("fn stop(&self) -> Result"));
}
