//! The attributes that steer the RPC derives: `#[rpc_service(serialize = "..")]` /
//! `#[rpc_client(..)]` on the enum, and `#[client]` / `#[response("A", "B")]` on its
//! variants. Parsing their tokens is the token parser's work; these types hold what
//! the derives read of each attribute once parsed.
use vstd::prelude::*;
use vstd::string::StringExecFns;

use crate::text::{joined, is_ident, is_text};

verus! {

/// The message of an unknown `serialize` value.
pub open spec fn unknown_format_message() -> Seq<char> {
    "'serialize' option expects one of: \"bincode\" | \"serde\" "@
}

/// What follows a parse error of the arguments of `#[response(..)]`.
pub open spec fn response_args_suffix() -> Seq<char> {
    ", 'response' expects a comma separated list of Variant names"@
}

/// An error of the derives, with the attribute it stems from.
pub struct SchemaError {
    /// The variant whose attribute is at fault; `None` for an attribute of the enum.
    pub variant: Option<usize>,
    /// The position of the attribute among those of its item.
    pub attr: usize,
    pub message: String,
}

/// The abstract value of a [`SchemaError`].
pub struct SchemaErrorView {
    pub variant: Option<usize>,
    pub attr: int,
    pub message: Seq<char>,
}

impl View for SchemaError {
    type V = SchemaErrorView;

    open spec fn view(&self) -> SchemaErrorView {
        SchemaErrorView { variant: self.variant, attr: self.attr as int, message: self.message@ }
    }
}

/// The serialization a definition asks for.
#[derive(PartialEq, Eq, Structural, Clone, Copy, Debug)]
pub enum SerializationFormat {
    Bincode,
    Serde,
}

/// One `key` or `key = value` item inside `#[rpc_service(..)]`, as the derives read it.
pub enum NestedMeta {
    /// `serialize = "<literal>"`, with the literal's value.
    Serialize(String),
    /// An item with another key, which is skipped.
    Other,
}

/// The items of an enum attribute's list, in order, and the parse error (if any) that
/// stopped the parser after them.
pub struct NestedMetas {
    pub entries: Vec<NestedMeta>,
    pub error: Option<String>,
}

pub enum EnumAttrMeta {
    /// The attribute has a parenthesized list of items.
    List(NestedMetas),
    /// A bare path or a `name = value` attribute.
    Other,
}

/// An attribute of the enum that derives the RPC traits.
pub struct EnumAttr {
    /// The attribute's path when it is a single identifier.
    pub path: Option<String>,
    pub meta: EnumAttrMeta,
}

/// The result of reading the items of one list from position `i` on, with `acc` the
/// format chosen by the items before `i`: a `serialize = "bincode"` item chooses
/// bincode, `serialize = "serde"` would choose serde (the derives stop there instead,
/// see [`nested_meets_serde`]), any other `serialize` value is an error, other items
/// are skipped, and a parse error after the items is reported last.
pub open spec fn nested_format(
    entries: Seq<NestedMeta>,
    error: Option<String>,
    i: int,
    acc: Option<SerializationFormat>,
) -> Result<Option<SerializationFormat>, Seq<char>>
    decreases entries.len() - i,
{
    if i >= entries.len() {
        match error {
            Some(e) => Err(e@),
            None => Ok(acc),
        }
    } else {
        match entries[i] {
            NestedMeta::Serialize(v) => {
                if v@ == "bincode"@ {
                    nested_format(entries, error, i + 1, Some(SerializationFormat::Bincode))
                } else if v@ == "serde"@ {
                    Ok(Some(SerializationFormat::Serde))
                } else {
                    Err(unknown_format_message())
                }
            },
            NestedMeta::Other => nested_format(entries, error, i + 1, acc),
        }
    }
}

/// Whether reading the items from `i` on meets `serialize = "serde"`, which the derives
/// leave unimplemented (they stop with a panic there).
pub open spec fn nested_meets_serde(entries: Seq<NestedMeta>, i: int) -> bool
    decreases entries.len() - i,
{
    if i >= entries.len() {
        false
    } else {
        match entries[i] {
            NestedMeta::Serialize(v) => {
                if v@ == "bincode"@ {
                    nested_meets_serde(entries, i + 1)
                } else {
                    v@ == "serde"@
                }
            },
            NestedMeta::Other => nested_meets_serde(entries, i + 1),
        }
    }
}

/// Whether the attribute is `#[rpc_service(..)]` or `#[rpc_client(..)]` with a list.
pub open spec fn is_option_list(a: EnumAttr) -> bool {
    &&& (a.path matches Some(p) && (p@ == "rpc_service"@ || p@ == "rpc_client"@))
    &&& a.meta is List
}

/// The serialization option of an enum: read from the first attribute from `i` on that
/// is an option list; `None` when there is none.
pub open spec fn serialization_option_from(attrs: Seq<EnumAttr>, i: int) -> Result<
    Option<SerializationFormat>,
    SchemaErrorView,
>
    decreases attrs.len() - i,
{
    if i >= attrs.len() {
        Ok(None)
    } else if is_option_list(attrs[i]) {
        match attrs[i].meta {
            EnumAttrMeta::List(n) => match nested_format(n.entries@, n.error, 0, None) {
                Ok(f) => Ok(f),
                Err(m) => Err(SchemaErrorView { variant: None, attr: i, message: m }),
            },
            EnumAttrMeta::Other => Ok(None),
        }
    } else {
        serialization_option_from(attrs, i + 1)
    }
}

/// Whether reading the serialization option from `i` on meets `serialize = "serde"`.
pub open spec fn option_meets_serde(attrs: Seq<EnumAttr>, i: int) -> bool
    decreases attrs.len() - i,
{
    if i >= attrs.len() {
        false
    } else if is_option_list(attrs[i]) {
        match attrs[i].meta {
            EnumAttrMeta::List(n) => nested_meets_serde(n.entries@, 0),
            EnumAttrMeta::Other => false,
        }
    } else {
        option_meets_serde(attrs, i + 1)
    }
}

/// Reads the items of one option list.
fn read_nested(n: &NestedMetas, attr: usize) -> (r: Result<Option<SerializationFormat>, SchemaError>)
    requires
        !nested_meets_serde(n.entries@, 0),
    ensures
        match nested_format(n.entries@, n.error, 0, None) {
            Ok(f) => r == Ok::<_, SchemaError>(f),
            Err(m) => r matches Err(e) && e@ == (SchemaErrorView {
                variant: None,
                attr: attr as int,
                message: m,
            }),
        },
        r matches Ok(f) ==> f != Some(SerializationFormat::Serde),
{
    let mut acc: Option<SerializationFormat> = None;
    let mut i: usize = 0;
    while i < n.entries.len()
        invariant
            i <= n.entries.len(),
            nested_format(n.entries@, n.error, 0, None) == nested_format(
                n.entries@,
                n.error,
                i as int,
                acc,
            ),
            !nested_meets_serde(n.entries@, i as int),
            acc != Some(SerializationFormat::Serde),
        decreases n.entries.len() - i,
    {
        match &n.entries[i] {
            NestedMeta::Serialize(v) => {
                if is_text(v, "bincode") {
                    acc = Some(SerializationFormat::Bincode);
                } else {
                    return Err(
                        SchemaError {
                            variant: None,
                            attr,
                            message: String::from_str(
                                "'serialize' option expects one of: \"bincode\" | \"serde\" ",
                            ),
                        },
                    );
                }
            },
            NestedMeta::Other => {},
        }
        i = i + 1;
    }
    match &n.error {
        Some(e) => Err(SchemaError { variant: None, attr, message: e.clone() }),
        None => Ok(acc),
    }
}

/// The serialization that the enum's attributes ask for: the first
/// `#[rpc_service(..)]` or `#[rpc_client(..)]` list decides; within it the last
/// `serialize = "bincode"` item sets the format, any other value is an error, and a
/// parse error of the list is passed on. Without such a list there is no format.
pub fn extract_serialization_option(attrs: &Vec<EnumAttr>) -> (r: Result<
    Option<SerializationFormat>,
    SchemaError,
>)
    requires
        !option_meets_serde(attrs@, 0),
    ensures
        match serialization_option_from(attrs@, 0) {
            Ok(f) => r == Ok::<_, SchemaError>(f),
            Err(e) => r matches Err(x) && x@ == e,
        },
        r matches Ok(f) ==> f != Some(SerializationFormat::Serde),
{
    let mut i: usize = 0;
    while i < attrs.len()
        invariant
            i <= attrs.len(),
            serialization_option_from(attrs@, 0) == serialization_option_from(attrs@, i as int),
            !option_meets_serde(attrs@, i as int),
        decreases attrs.len() - i,
    {
        let a = &attrs[i];
        if is_ident(&a.path, "rpc_service") || is_ident(&a.path, "rpc_client") {
            if let EnumAttrMeta::List(n) = &a.meta {
                return read_nested(n, i);
            }
        }
        i = i + 1;
    }
    Ok(None)
}

/// Whether an attribute path is `rpc_service` or `rpc_client`.
pub open spec fn names_option_attribute(path: Option<String>) -> bool {
    path matches Some(p) && (p@ == "rpc_service"@ || p@ == "rpc_client"@)
}

/// The two option attributes are read alike: two attribute lists that differ only in
/// writing `rpc_service` where the other writes `rpc_client` (or the reverse) give the
/// same serialization option, and meet `serialize = "serde"` alike.
pub proof fn lemma_service_and_client_options_read_alike(a: Seq<EnumAttr>, b: Seq<EnumAttr>, i: int)
    requires
        0 <= i <= a.len(),
        a.len() == b.len(),
        forall|j: int|
            0 <= j < a.len() ==> #[trigger] a[j].meta == b[j].meta && (a[j].path == b[j].path || (
            names_option_attribute(a[j].path) && names_option_attribute(b[j].path))),
    ensures
        serialization_option_from(a, i) == serialization_option_from(b, i),
        option_meets_serde(a, i) == option_meets_serde(b, i),
    decreases a.len() - i,
{
    if i < a.len() {
        assert(a[i].meta == b[i].meta);
        assert(is_option_list(a[i]) == is_option_list(b[i]));
        lemma_service_and_client_options_read_alike(a, b, i + 1);
    }
}

proof fn lemma_bincode_items(entries: Seq<NestedMeta>, k: int, acc: Option<SerializationFormat>)
    requires
        0 <= k <= entries.len(),
        k < entries.len() || acc == Some(SerializationFormat::Bincode),
        forall|j: int|
            0 <= j < entries.len() ==> (#[trigger] entries[j] matches NestedMeta::Serialize(v)
                && v@ == "bincode"@),
    ensures
        nested_format(entries, None, k, acc) == Ok::<_, Seq<char>>(Some(SerializationFormat::Bincode)),
    decreases entries.len() - k,
{
    if k < entries.len() {
        assert(entries[k] matches NestedMeta::Serialize(v) && v@ == "bincode"@);
        lemma_bincode_items(entries, k + 1, Some(SerializationFormat::Bincode));
    }
}

/// A first option list whose items are all `serialize = "bincode"` asks for bincode,
/// whether it is written `#[rpc_service(..)]` or `#[rpc_client(..)]`: when no attribute
/// before position `i` is an option list and the attribute at `i` is one of the two
/// with a non-empty list of such items and no parse error, the option is bincode.
pub proof fn lemma_bincode_list_chooses_bincode(attrs: Seq<EnumAttr>, i: int)
    requires
        0 <= i < attrs.len(),
        forall|j: int| 0 <= j < i ==> !is_option_list(#[trigger] attrs[j]),
        names_option_attribute(attrs[i].path),
        attrs[i].meta matches EnumAttrMeta::List(n) && n.error is None && n.entries@.len() > 0
            && forall|j: int|
            0 <= j < n.entries@.len() ==> (#[trigger] n.entries@[j] matches NestedMeta::Serialize(
                v,
            ) && v@ == "bincode"@),
    ensures
        serialization_option_from(attrs, 0) == Ok::<_, SchemaErrorView>(
            Some(SerializationFormat::Bincode),
        ),
{
    lemma_option_from_skips(attrs, 0, i);
    if let EnumAttrMeta::List(n) = attrs[i].meta {
        lemma_bincode_items(n.entries@, 0, None);
    }
}

proof fn lemma_option_from_skips(attrs: Seq<EnumAttr>, k: int, i: int)
    requires
        0 <= k <= i < attrs.len(),
        forall|j: int| 0 <= j < i ==> !is_option_list(#[trigger] attrs[j]),
    ensures
        serialization_option_from(attrs, k) == serialization_option_from(attrs, i),
    decreases i - k,
{
    if k < i {
        assert(!is_option_list(attrs[k]));
        lemma_option_from_skips(attrs, k + 1, i);
    }
}

/// Whether reading the items of one list meets `serialize = "serde"`.
fn nested_asks_serde(n: &NestedMetas) -> (b: bool)
    ensures
        b == nested_meets_serde(n.entries@, 0),
{
    let mut i: usize = 0;
    while i < n.entries.len()
        invariant
            i <= n.entries.len(),
            nested_meets_serde(n.entries@, 0) == nested_meets_serde(n.entries@, i as int),
        decreases n.entries.len() - i,
    {
        if let NestedMeta::Serialize(v) = &n.entries[i] {
            if !is_text(v, "bincode") {
                return is_text(v, "serde");
            }
        }
        i = i + 1;
    }
    false
}

/// Whether the enum's attributes ask for `serialize = "serde"` before any error: the
/// derives do not implement that format, and stop there.
pub fn asks_for_serde(attrs: &Vec<EnumAttr>) -> (b: bool)
    ensures
        b == option_meets_serde(attrs@, 0),
{
    let mut i: usize = 0;
    while i < attrs.len()
        invariant
            i <= attrs.len(),
            option_meets_serde(attrs@, 0) == option_meets_serde(attrs@, i as int),
        decreases attrs.len() - i,
    {
        let a = &attrs[i];
        if is_ident(&a.path, "rpc_service") || is_ident(&a.path, "rpc_client") {
            if let EnumAttrMeta::List(n) = &a.meta {
                return nested_asks_serde(n);
            }
        }
        i = i + 1;
    }
    false
}

/// How one variant of the definition takes part in the RPC.
pub enum VariantKind {
    /// A call that clients make and the service handles (the default).
    ServiceRpc,
    /// A call that the service makes and clients handle (`#[client]`).
    ClientRpc,
    /// The response of the listed calls (`#[response("A", ..)]`), not a call itself.
    Response(Vec<String>),
}

/// The abstract value of a [`VariantKind`].
pub enum VariantKindView {
    ServiceRpc,
    ClientRpc,
    Response(Seq<Seq<char>>),
}

impl View for VariantKind {
    type V = VariantKindView;

    open spec fn view(&self) -> VariantKindView {
        match self {
            VariantKind::ServiceRpc => VariantKindView::ServiceRpc,
            VariantKind::ClientRpc => VariantKindView::ClientRpc,
            VariantKind::Response(names) => VariantKindView::Response(
                names@.map_values(|s: String| s@),
            ),
        }
    }
}

pub enum VariantAttrMeta {
    /// The attribute has no parenthesized arguments; the message is the parser's
    /// complaint about that.
    NotList(String),
    /// The arguments, read as comma-separated string literals, or the parse error.
    List(Result<Vec<String>, String>),
}

/// An attribute of one variant of the definition.
pub struct VariantAttr {
    /// The attribute's path when it is a single identifier.
    pub path: Option<String>,
    pub meta: VariantAttrMeta,
}

/// The kind of a variant as its attributes from `i` on give it: the first `response`
/// or `client` attribute decides; without one the variant is a service call.
pub open spec fn variant_kind_from(attrs: Seq<VariantAttr>, i: int) -> Result<
    VariantKindView,
    SchemaErrorView,
>
    decreases attrs.len() - i,
{
    if i >= attrs.len() {
        Ok(VariantKindView::ServiceRpc)
    } else if attrs[i].path matches Some(p) && p@ == "response"@ {
        match attrs[i].meta {
            VariantAttrMeta::NotList(m) => Err(
                SchemaErrorView { variant: None, attr: i, message: m@ },
            ),
            VariantAttrMeta::List(Ok(names)) => Ok(
                VariantKindView::Response(names@.map_values(|s: String| s@)),
            ),
            VariantAttrMeta::List(Err(e)) => Err(
                SchemaErrorView { variant: None, attr: i, message: e@ + response_args_suffix() },
            ),
        }
    } else if attrs[i].path matches Some(p) && p@ == "client"@ {
        Ok(VariantKindView::ClientRpc)
    } else {
        variant_kind_from(attrs, i + 1)
    }
}

/// The kind of a variant given by its attributes.
pub open spec fn variant_kind(attrs: Seq<VariantAttr>) -> Result<VariantKindView, SchemaErrorView> {
    variant_kind_from(attrs, 0)
}

/// A copy of a list of names.
pub fn copy_names(names: &Vec<String>) -> (c: Vec<String>)
    ensures
        c@.map_values(|s: String| s@) == names@.map_values(|s: String| s@),
{
    let mut c: Vec<String> = Vec::new();
    let mut i: usize = 0;
    while i < names.len()
        invariant
            i <= names.len(),
            c@.map_values(|s: String| s@) == names@.take(i as int).map_values(|s: String| s@),
        decreases names.len() - i,
    {
        let ghost before = c@;
        c.push(names[i].clone());
        proof {
            assert(names@.take(i + 1) =~= names@.take(i as int).push(names@[i as int]));
            assert(c@.map_values(|s: String| s@) =~= before.map_values(|s: String| s@).push(
                names@[i as int]@,
            ));
            assert(names@.take(i + 1).map_values(|s: String| s@) =~= names@.take(
                i as int,
            ).map_values(|s: String| s@).push(names@[i as int]@));
        }
        i = i + 1;
    }
    proof {
        assert(names@.take(names.len() as int) =~= names@);
    }
    c
}

/// The kind of a variant: `#[response(..)]` makes it the response of the listed calls
/// (its arguments must be a list of string literals), `#[client]` makes it a call that
/// clients handle; the first of these attributes decides, and without one the
/// variant is a call that the service handles.
pub fn extract_variant_attributes(attrs: &Vec<VariantAttr>) -> (r: Result<
    VariantKind,
    SchemaError,
>)
    ensures
        match variant_kind(attrs@) {
            Ok(k) => r matches Ok(x) && x@ == k,
            Err(e) => r matches Err(x) && x@ == e,
        },
{
    let mut i: usize = 0;
    while i < attrs.len()
        invariant
            i <= attrs.len(),
            variant_kind(attrs@) == variant_kind_from(attrs@, i as int),
        decreases attrs.len() - i,
    {
        let a = &attrs[i];
        if is_ident(&a.path, "response") {
            return match &a.meta {
                VariantAttrMeta::NotList(m) => Err(
                    SchemaError { variant: None, attr: i, message: m.clone() },
                ),
                VariantAttrMeta::List(Ok(names)) => Ok(VariantKind::Response(copy_names(names))),
                VariantAttrMeta::List(Err(e)) => Err(
                    SchemaError {
                        variant: None,
                        attr: i,
                        message: joined(
                            e.as_str(),
                            ", 'response' expects a comma separated list of Variant names",
                        ),
                    },
                ),
            };
        } else if is_ident(&a.path, "client") {
            return Ok(VariantKind::ClientRpc);
        }
        i = i + 1;
    }
    Ok(VariantKind::ServiceRpc)
}

} // verus!
