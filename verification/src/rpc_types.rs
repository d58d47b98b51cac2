//! The shared RPC types that the derives emit once per crate: the message, its origin
//! and the error types, and the `derive` list that every emitted type carries.
use vstd::prelude::*;
use vstd::string::StringExecFns;

use crate::attrs::SerializationFormat;
use crate::text::{is_text, join, join_texts, joined, texts};

verus! {

/// The names of the types that earlier derives in this compilation already emitted.
pub struct GeneratedTypes {
    names: Vec<String>,
}

impl View for GeneratedTypes {
    type V = Set<Seq<char>>;

    closed spec fn view(&self) -> Set<Seq<char>> {
        texts(self.names@).to_set()
    }
}

impl GeneratedTypes {
    /// Nothing emitted yet.
    pub fn new() -> (g: Self)
        ensures
            g@ == Set::<Seq<char>>::empty(),
    {
        let g = GeneratedTypes { names: Vec::new() };
        assert(texts(g.names@) =~= Seq::<Seq<char>>::empty());
        g
    }

    /// Whether `name` was emitted.
    pub fn contains(&self, name: &str) -> (b: bool)
        ensures
            b == self@.contains(name@),
    {
        let mut i: usize = 0;
        while i < self.names.len()
            invariant
                i <= self.names.len(),
                forall|j: int| 0 <= j < i ==> self.names@[j]@ != name@,
            decreases self.names.len() - i,
        {
            if is_text(&self.names[i], name) {
                assert(texts(self.names@)[i as int] == name@);
                return true;
            }
            i = i + 1;
        }
        proof {
            if texts(self.names@).contains(name@) {
                let k = texts(self.names@).index_of(name@);
                assert(self.names@[k]@ == name@);
            }
        }
        false
    }

    /// Records that `name` was emitted.
    pub fn insert(&mut self, name: &str)
        ensures
            final(self)@ == old(self)@.insert(name@),
    {
        let ghost before = texts(self.names@);
        self.names.push(String::from_str(name));
        assert(texts(self.names@) =~= before.push(name@));
        let ghost after = texts(self.names@);
        assert forall|x: Seq<char>| after.contains(x) <==> before.contains(x) || x == name@ by {
            if before.contains(x) {
                let k = before.index_of(x);
                assert(after[k] == x);
            }
            if x == name@ {
                assert(after[before.len() as int] == x);
            }
            if after.contains(x) {
                let k = after.index_of(x);
                if k < before.len() {
                    assert(before[k] == x);
                }
            }
        }
        assert(after.to_set() =~= before.to_set().insert(name@));
    }
}

/// The derives that every emitted type carries, by serialization format.
pub open spec fn derive_paths(format: Option<SerializationFormat>) -> Seq<Seq<char>> {
    match format {
        Some(SerializationFormat::Bincode) => seq![
            "::bincode::Encode"@,
            "::bincode::Decode"@,
            "Debug"@,
            "Clone"@,
        ],
        Some(SerializationFormat::Serde) => seq![
            "::serde::Serialize"@,
            "::serde::Deserialize"@,
            "Debug"@,
            "Clone"@,
        ],
        None => seq!["Debug"@, "Clone"@],
    }
}

/// The paths of the derives that the emitted types carry: the encoder and decoder
/// of the chosen format, then `Debug` and `Clone`.
pub fn serialization_derives(format: Option<SerializationFormat>) -> (d: Vec<String>)
    ensures
        texts(d@) == derive_paths(format),
{
    let mut d: Vec<String> = Vec::new();
    match format {
        Some(SerializationFormat::Bincode) => {
            d.push(String::from_str("::bincode::Encode"));
            d.push(String::from_str("::bincode::Decode"));
        },
        Some(SerializationFormat::Serde) => {
            d.push(String::from_str("::serde::Serialize"));
            d.push(String::from_str("::serde::Deserialize"));
        },
        None => {},
    }
    d.push(String::from_str("Debug"));
    d.push(String::from_str("Clone"));
    assert(texts(d@) =~= derive_paths(format));
    d
}

/// The attribute that puts these derives on an emitted type.
pub open spec fn derive_attr(derives: Seq<Seq<char>>) -> Seq<char> {
    "#[derive("@ + join(derives, ", "@) + ")]"@
}

/// `#[derive(..)]` with these paths.
pub fn derive_attr_code(derives: &Vec<String>) -> (s: String)
    ensures
        s@ == derive_attr(texts(derives@)),
{
    let list = join_texts(derives, ", ");
    let mut s = String::from_str("#[derive(");
    s.append(list.as_str());
    s.append(")]");
    s
}

/// The code of the shared types, with the error kind `kind`, the error `error` and
/// the derives `derives`: `Message` (identifier, origin, payload), `Origin` (`Service`,
/// `Client`; comparable), the error kind with its seven kinds, displayed by name, and
/// the error, made by `new` from a kind with the kind's name as description, with a
/// description that can be replaced, displayed as its kind.
pub open spec fn rpc_types_code(kind: Seq<char>, error: Seq<char>, derives: Seq<Seq<char>>) -> Seq<char> {
    derive_attr(derives) + " pub struct Message { pub id: u32, pub origin: Origin, pub payload: Payload, }\n"@ + derive_attr(derives) + " #[derive(PartialEq)] pub enum Origin { Service, Client, }\n"@ + derive_attr(derives) + " pub enum "@ + kind + " { Timeout, InvalidArgument, PermissionDenied, NotFound, Unimplemented, Unreachable, Internal, }\nimpl std::fmt::Display for "@ + kind + " { fn fmt(&self, f: &mut std::fmt::Formatter) -> std::fmt::Result { match self { Self::Timeout => write!(f, \"Timeout\"), Self::InvalidArgument => write!(f, \"InvalidArgument\"), Self::PermissionDenied => write!(f, \"PermissionDenied\"), Self::NotFound => write!(f, \"NotFound\"), Self::Unimplemented => write!(f, \"Unimplemented\"), Self::Unreachable => write!(f, \"Unreachable\"), Self::Internal => write!(f, \"Internal\"), } } }\n"@ + derive_attr(derives) + " pub struct "@ + error + " { error: "@ + kind + ", description: String, }\nimpl "@ + error + " { pub fn new(error: "@ + kind + ") -> Self { Self { description: error.to_string(), error, } } pub fn set_description(&mut self, description: impl Into<String>) { self.description = description.into(); } }\nimpl std::fmt::Display for "@ + error + " { fn fmt(&self, f: &mut std::fmt::Formatter) -> std::fmt::Result { write!(f, \"{}\", self.error) } }\nimpl std::error::Error for "@ + error + " { fn description(&self) -> &str { &self.description } }\n"@
}

/// The code of the shared types.
fn rpc_types_text(kind: &String, error: &String, derives: &Vec<String>) -> (s: String)
    ensures
        s@ == rpc_types_code(kind@, error@, texts(derives@)),
{
    let attr = derive_attr_code(derives);
    let mut s = String::from_str(attr.as_str());
    s.append(" pub struct Message { pub id: u32, pub origin: Origin, pub payload: Payload, }\n");
    s.append(attr.as_str());
    s.append(" #[derive(PartialEq)] pub enum Origin { Service, Client, }\n");
    s.append(attr.as_str());
    s.append(" pub enum ");
    s.append(kind.as_str());
    s.append(" { Timeout, InvalidArgument, PermissionDenied, NotFound, Unimplemented, Unreachable, Internal, }\nimpl std::fmt::Display for ");
    s.append(kind.as_str());
    s.append(" { fn fmt(&self, f: &mut std::fmt::Formatter) -> std::fmt::Result { match self { Self::Timeout => write!(f, \"Timeout\"), Self::InvalidArgument => write!(f, \"InvalidArgument\"), Self::PermissionDenied => write!(f, \"PermissionDenied\"), Self::NotFound => write!(f, \"NotFound\"), Self::Unimplemented => write!(f, \"Unimplemented\"), Self::Unreachable => write!(f, \"Unreachable\"), Self::Internal => write!(f, \"Internal\"), } } }\n");
    s.append(attr.as_str());
    s.append(" pub struct ");
    s.append(error.as_str());
    s.append(" { error: ");
    s.append(kind.as_str());
    s.append(", description: String, }\nimpl ");
    s.append(error.as_str());
    s.append(" { pub fn new(error: ");
    s.append(kind.as_str());
    s.append(") -> Self { Self { description: error.to_string(), error, } } pub fn set_description(&mut self, description: impl Into<String>) { self.description = description.into(); } }\nimpl std::fmt::Display for ");
    s.append(error.as_str());
    s.append(" { fn fmt(&self, f: &mut std::fmt::Formatter) -> std::fmt::Result { write!(f, \"{}\", self.error) } }\nimpl std::error::Error for ");
    s.append(error.as_str());
    s.append(" { fn description(&self) -> &str { &self.description } }\n");
    s
}

/// The shared types of one definition `Name`: `Message`, `Origin`, `NameErrorKind`
/// and `NameError`, all carrying the same derives, and their code.
pub struct RpcTypes {
    pub error_kind_type: String,
    pub error_type: String,
    pub derives: Vec<String>,
    pub code: String,
}

/// The abstract value of [`RpcTypes`].
pub struct RpcTypesView {
    pub error_kind_type: Seq<char>,
    pub error_type: Seq<char>,
    pub derives: Seq<Seq<char>>,
    pub code: Seq<char>,
}

impl View for RpcTypes {
    type V = RpcTypesView;

    open spec fn view(&self) -> RpcTypesView {
        RpcTypesView {
            error_kind_type: self.error_kind_type@,
            error_type: self.error_type@,
            derives: texts(self.derives@),
            code: self.code@,
        }
    }
}

/// The shared types that the definition `name` describes.
pub open spec fn rpc_types_of(name: Seq<char>, format: Option<SerializationFormat>) -> RpcTypesView {
    RpcTypesView {
        error_kind_type: name + "ErrorKind"@,
        error_type: name + "Error"@,
        derives: derive_paths(format),
        code: rpc_types_code(name + "ErrorKind"@, name + "Error"@, derive_paths(format)),
    }
}

/// The shared types, emitted only by the first derive that asks for them: once
/// `Message` is recorded as emitted, later derives emit nothing here.
pub fn generate_rpc_request_response(
    name: &str,
    format: Option<SerializationFormat>,
    generated: &mut GeneratedTypes,
) -> (r: Option<RpcTypes>)
    ensures
        old(generated)@.contains("Message"@) ==> r is None && final(generated)@ == old(
            generated,
        )@,
        !old(generated)@.contains("Message"@) ==> {
            &&& r matches Some(t) && t@ == rpc_types_of(name@, format)
            &&& final(generated)@ == old(generated)@.insert("Message"@)
        },
{
    if generated.contains("Message") {
        return None;
    }
    let derives = serialization_derives(format);
    generated.insert("Message");
    let error_kind_type = joined(name, "ErrorKind");
    let error_type = joined(name, "Error");
    let code = rpc_types_text(&error_kind_type, &error_type, &derives);
    Some(RpcTypes { error_kind_type, error_type, derives, code })
}

} // verus!
