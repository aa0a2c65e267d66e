//! The closed set of kinds a topic's value may have, and the numeric
//! identifier each kind is announced with.

use vstd::prelude::*;
use vstd::std_specs::cmp::PartialEqSpecImpl;
use vstd::string::{StrSliceExecFns, StringExecFns};
use crate::text::same_text;

verus! {

/// A kind of value understood by a server.
#[derive(Debug, Clone, Eq)]
pub enum DataType {
    /// The schema of a structure.
    StructSchema,
    /// A structure, with its name.
    Struct(String),
    /// A boolean.
    Boolean,
    /// A double-precision number.
    Double,
    /// An integer of any width.
    Int,
    /// A single-precision number.
    Float,
    /// A text.
    String,
    /// A JSON text.
    Json,
    /// Raw bytes.
    Raw,
    /// The bytes of a remote procedure call.
    Rpc,
    /// A MessagePack value.
    Msgpack,
    /// The bytes of a Protocol Buffers message.
    Protobuf,
    /// A list of booleans.
    BooleanArray,
    /// A list of double-precision numbers.
    DoubleArray,
    /// A list of integers.
    IntArray,
    /// A list of single-precision numbers.
    FloatArray,
    /// A list of texts.
    StringArray,
    /// Any other kind, with the token that named it.
    Other(String),
}

/// What a [`DataType`] stands for: the kind, with the text it carries.
pub enum Kind {
    /// The schema of a structure.
    StructSchema,
    /// A structure, with its name.
    Struct(Seq<char>),
    /// A boolean.
    Boolean,
    /// A double-precision number.
    Double,
    /// An integer of any width.
    Int,
    /// A single-precision number.
    Float,
    /// A text.
    String,
    /// A JSON text.
    Json,
    /// Raw bytes.
    Raw,
    /// The bytes of a remote procedure call.
    Rpc,
    /// A MessagePack value.
    Msgpack,
    /// The bytes of a Protocol Buffers message.
    Protobuf,
    /// A list of booleans.
    BooleanArray,
    /// A list of double-precision numbers.
    DoubleArray,
    /// A list of integers.
    IntArray,
    /// A list of single-precision numbers.
    FloatArray,
    /// A list of texts.
    StringArray,
    /// Any other kind, with the token that named it.
    Other(Seq<char>),
}

impl View for DataType {
    type V = Kind;

    open spec fn view(&self) -> Kind {
        match self {
            DataType::StructSchema => Kind::StructSchema,
            DataType::Struct(text) => Kind::Struct(text@),
            DataType::Boolean => Kind::Boolean,
            DataType::Double => Kind::Double,
            DataType::Int => Kind::Int,
            DataType::Float => Kind::Float,
            DataType::String => Kind::String,
            DataType::Json => Kind::Json,
            DataType::Raw => Kind::Raw,
            DataType::Rpc => Kind::Rpc,
            DataType::Msgpack => Kind::Msgpack,
            DataType::Protobuf => Kind::Protobuf,
            DataType::BooleanArray => Kind::BooleanArray,
            DataType::DoubleArray => Kind::DoubleArray,
            DataType::IntArray => Kind::IntArray,
            DataType::FloatArray => Kind::FloatArray,
            DataType::StringArray => Kind::StringArray,
            DataType::Other(text) => Kind::Other(text@),
        }
    }
}

/// Two kinds are equal when they are the same kind and carry the same text.
impl PartialEq for DataType {
    fn eq(&self, other: &DataType) -> (same: bool) {
        match (self, other) {
            (DataType::StructSchema, DataType::StructSchema) => true,
            (DataType::Struct(a), DataType::Struct(b)) => *a == *b,
            (DataType::Boolean, DataType::Boolean) => true,
            (DataType::Double, DataType::Double) => true,
            (DataType::Int, DataType::Int) => true,
            (DataType::Float, DataType::Float) => true,
            (DataType::String, DataType::String) => true,
            (DataType::Json, DataType::Json) => true,
            (DataType::Raw, DataType::Raw) => true,
            (DataType::Rpc, DataType::Rpc) => true,
            (DataType::Msgpack, DataType::Msgpack) => true,
            (DataType::Protobuf, DataType::Protobuf) => true,
            (DataType::BooleanArray, DataType::BooleanArray) => true,
            (DataType::DoubleArray, DataType::DoubleArray) => true,
            (DataType::IntArray, DataType::IntArray) => true,
            (DataType::FloatArray, DataType::FloatArray) => true,
            (DataType::StringArray, DataType::StringArray) => true,
            (DataType::Other(a), DataType::Other(b)) => *a == *b,
            _ => false,
        }
    }
}

impl PartialEqSpecImpl for DataType {
    open spec fn obeys_eq_spec() -> bool {
        true
    }

    open spec fn eq_spec(&self, other: &DataType) -> bool {
        self@ == other@
    }
}

/// What every token of a structure begins with.
pub open spec fn struct_prefix() -> Seq<char> {
    "struct:"@
}

/// The kind that one of the fixed tokens names.
pub open spec fn fixed_kind(token: Seq<char>) -> Option<Kind> {
    if token == "boolean"@ {
        Some(Kind::Boolean)
    } else if token == "double"@ {
        Some(Kind::Double)
    } else if token == "int"@ {
        Some(Kind::Int)
    } else if token == "float"@ {
        Some(Kind::Float)
    } else if token == "string"@ {
        Some(Kind::String)
    } else if token == "json"@ {
        Some(Kind::Json)
    } else if token == "raw"@ {
        Some(Kind::Raw)
    } else if token == "rpc"@ {
        Some(Kind::Rpc)
    } else if token == "msgpack"@ {
        Some(Kind::Msgpack)
    } else if token == "protobuf"@ {
        Some(Kind::Protobuf)
    } else if token == "boolean[]"@ {
        Some(Kind::BooleanArray)
    } else if token == "double[]"@ {
        Some(Kind::DoubleArray)
    } else if token == "int[]"@ {
        Some(Kind::IntArray)
    } else if token == "float[]"@ {
        Some(Kind::FloatArray)
    } else if token == "string[]"@ {
        Some(Kind::StringArray)
    } else if token == "structschema"@ {
        Some(Kind::StructSchema)
    } else {
        None
    }
}

/// Whether `token` names a kind: it is a structure's token or a fixed one.
pub open spec fn is_known_token(token: Seq<char>) -> bool {
    struct_prefix().is_prefix_of(token) || fixed_kind(token) is Some
}

/// The kind that `token` names. A token that begins with the structure
/// prefix names the structure called by the rest of it; a token that names
/// nothing is kept as it is.
pub open spec fn kind_of_token(token: Seq<char>) -> Kind {
    if struct_prefix().is_prefix_of(token) {
        Kind::Struct(token.skip(struct_prefix().len() as int))
    } else {
        match fixed_kind(token) {
            Some(kind) => kind,
            None => Kind::Other(token),
        }
    }
}

/// The token that names `kind`.
pub open spec fn token_of_kind(kind: Kind) -> Seq<char> {
    match kind {
        Kind::Struct(name) => struct_prefix() + name,
        Kind::Other(token) => token,
        Kind::Boolean => "boolean"@,
        Kind::Double => "double"@,
        Kind::Int => "int"@,
        Kind::Float => "float"@,
        Kind::String => "string"@,
        Kind::Json => "json"@,
        Kind::Raw => "raw"@,
        Kind::Rpc => "rpc"@,
        Kind::Msgpack => "msgpack"@,
        Kind::Protobuf => "protobuf"@,
        Kind::BooleanArray => "boolean[]"@,
        Kind::DoubleArray => "double[]"@,
        Kind::IntArray => "int[]"@,
        Kind::FloatArray => "float[]"@,
        Kind::StringArray => "string[]"@,
        Kind::StructSchema => "structschema"@,
    }
}

/// The identifier of the kinds that have none.
pub const NO_ID: u32 = 0xffff_ffff;

/// Whether `id` is one of the identifiers a kind is announced with.
pub open spec fn is_type_id(id: u32) -> bool {
    id <= 5 || 16 <= id <= 20
}

/// Whether `token`, which has `len` characters, begins with `prefix`.
fn token_begins_with(token: &str, len: usize, prefix: &str) -> (begins: bool)
    requires
        len == token@.len(),
    ensures
        begins == prefix@.is_prefix_of(token@),
{
    let prefix_len = prefix.unicode_len();
    if len < prefix_len {
        return false;
    }
    let mut i: usize = 0;
    while i < prefix_len
        invariant
            len == token@.len(),
            prefix_len == prefix@.len(),
            prefix_len <= len,
            i <= prefix_len,
            forall|j: int| 0 <= j < i ==> token@[j] == prefix@[j],
        decreases prefix_len - i,
    {
        if token.get_char(i) != prefix.get_char(i) {
            assert(token@.subrange(0, prefix@.len() as int)[i as int] != prefix@[i as int]);
            return false;
        }
        i += 1;
    }
    assert(prefix@ =~= token@.subrange(0, prefix@.len() as int));
    true
}

impl DataType {
    /// The identifier this kind is announced with, or [`NO_ID`].
    pub open spec fn spec_as_id(self) -> u32 {
        match self {
            DataType::Boolean => 0,
            DataType::Double => 1,
            DataType::Int => 2,
            DataType::Float => 3,
            DataType::String | DataType::Json => 4,
            DataType::Raw | DataType::Rpc | DataType::Msgpack | DataType::Protobuf => 5,
            DataType::BooleanArray => 16,
            DataType::DoubleArray => 17,
            DataType::IntArray => 18,
            DataType::FloatArray => 19,
            DataType::StringArray => 20,
            DataType::StructSchema | DataType::Struct(_) | DataType::Other(_) => NO_ID,
        }
    }

    /// The kind an identifier stands for, if it stands for one.
    pub open spec fn spec_from_id(id: u32) -> Option<DataType> {
        if id == 0 {
            Some(DataType::Boolean)
        } else if id == 1 {
            Some(DataType::Double)
        } else if id == 2 {
            Some(DataType::Int)
        } else if id == 3 {
            Some(DataType::Float)
        } else if id == 4 {
            Some(DataType::String)
        } else if id == 5 {
            Some(DataType::Raw)
        } else if id == 16 {
            Some(DataType::BooleanArray)
        } else if id == 17 {
            Some(DataType::DoubleArray)
        } else if id == 18 {
            Some(DataType::IntArray)
        } else if id == 19 {
            Some(DataType::FloatArray)
        } else if id == 20 {
            Some(DataType::StringArray)
        } else {
            None
        }
    }

    /// Looks up the kind that `id` stands for.
    ///
    /// Several kinds share an identifier; the lookup answers with the first
    /// of them (`String` for 4, `Raw` for 5).
    pub fn from_id(id: u32) -> (kind: Option<DataType>)
        ensures
            kind == Self::spec_from_id(id),
            kind is Some <==> is_type_id(id),
            kind matches Some(found) ==> found.spec_as_id() == id,
    {
        match id {
            0 => Some(DataType::Boolean),
            1 => Some(DataType::Double),
            2 => Some(DataType::Int),
            3 => Some(DataType::Float),
            4 => Some(DataType::String),
            5 => Some(DataType::Raw),
            16 => Some(DataType::BooleanArray),
            17 => Some(DataType::DoubleArray),
            18 => Some(DataType::IntArray),
            19 => Some(DataType::FloatArray),
            20 => Some(DataType::StringArray),
            _ => None,
        }
    }

    /// The identifier this kind is announced with.
    ///
    /// A structure, a structure schema and an unrecognised kind have none and
    /// give [`NO_ID`].
    pub fn as_id(&self) -> (id: u32)
        ensures
            id == self.spec_as_id(),
    {
        match self {
            DataType::Boolean => 0,
            DataType::Double => 1,
            DataType::Int => 2,
            DataType::Float => 3,
            DataType::String | DataType::Json => 4,
            DataType::Raw | DataType::Rpc | DataType::Msgpack | DataType::Protobuf => 5,
            DataType::BooleanArray => 16,
            DataType::DoubleArray => 17,
            DataType::IntArray => 18,
            DataType::FloatArray => 19,
            DataType::StringArray => 20,
            _ => NO_ID,
        }
    }

    /// Reads a kind from the token that names it.
    ///
    /// Every token is read: one that names no kind gives [`DataType::Other`]
    /// with the token in it.
    pub fn from_token(token: &str) -> (kind: DataType)
        ensures
            kind@ == kind_of_token(token@),
            kind is Other <==> !is_known_token(token@),
            !is_known_token(token@) ==> kind@ == Kind::Other(token@),
    {
        let len = token.unicode_len();
        if token_begins_with(token, len, "struct:") {
            let prefix_len = "struct:".unicode_len();
            let name = token.substring_char(prefix_len, len);
            assert(name@ =~= token@.skip(struct_prefix().len() as int));
            DataType::Struct(name.to_owned())
        } else if same_text(token, "boolean") {
            DataType::Boolean
        } else if same_text(token, "double") {
            DataType::Double
        } else if same_text(token, "int") {
            DataType::Int
        } else if same_text(token, "float") {
            DataType::Float
        } else if same_text(token, "string") {
            DataType::String
        } else if same_text(token, "json") {
            DataType::Json
        } else if same_text(token, "raw") {
            DataType::Raw
        } else if same_text(token, "rpc") {
            DataType::Rpc
        } else if same_text(token, "msgpack") {
            DataType::Msgpack
        } else if same_text(token, "protobuf") {
            DataType::Protobuf
        } else if same_text(token, "boolean[]") {
            DataType::BooleanArray
        } else if same_text(token, "double[]") {
            DataType::DoubleArray
        } else if same_text(token, "int[]") {
            DataType::IntArray
        } else if same_text(token, "float[]") {
            DataType::FloatArray
        } else if same_text(token, "string[]") {
            DataType::StringArray
        } else if same_text(token, "structschema") {
            DataType::StructSchema
        } else {
            DataType::Other(token.to_owned())
        }
    }

    /// The token that names this kind.
    pub fn as_token(&self) -> (token: String)
        ensures
            token@ == token_of_kind(self@),
    {
        match self {
            DataType::Struct(name) => "struct:".to_owned().concat(name.as_str()),
            DataType::Other(token) => token.clone(),
            DataType::Boolean => "boolean".to_owned(),
            DataType::Double => "double".to_owned(),
            DataType::Int => "int".to_owned(),
            DataType::Float => "float".to_owned(),
            DataType::String => "string".to_owned(),
            DataType::Json => "json".to_owned(),
            DataType::Raw => "raw".to_owned(),
            DataType::Rpc => "rpc".to_owned(),
            DataType::Msgpack => "msgpack".to_owned(),
            DataType::Protobuf => "protobuf".to_owned(),
            DataType::BooleanArray => "boolean[]".to_owned(),
            DataType::DoubleArray => "double[]".to_owned(),
            DataType::IntArray => "int[]".to_owned(),
            DataType::FloatArray => "float[]".to_owned(),
            DataType::StringArray => "string[]".to_owned(),
            DataType::StructSchema => "structschema".to_owned(),
        }
    }
}

/// The identifier of a kind that was looked up by identifier is that
/// identifier.
pub proof fn lemma_id_round_trip(id: u32)
    requires
        is_type_id(id),
    ensures
        DataType::spec_from_id(id) is Some,
        DataType::spec_from_id(id)->0.spec_as_id() == id,
{
}

/// The token of the kind that a known token names is that token.
pub proof fn lemma_token_round_trip(token: Seq<char>)
    requires
        is_known_token(token),
    ensures
        token_of_kind(kind_of_token(token)) == token,
{
    if struct_prefix().is_prefix_of(token) {
        assert(struct_prefix() + token.skip(struct_prefix().len() as int) =~= token);
    }
}

/// A structure's kind is read back from its token, whatever its name.
pub proof fn lemma_struct_round_trip(name: Seq<char>)
    ensures
        kind_of_token(token_of_kind(Kind::Struct(name))) == Kind::Struct(name),
{
    let token = struct_prefix() + name;
    assert(struct_prefix() =~= token.subrange(0, struct_prefix().len() as int));
    assert(token.skip(struct_prefix().len() as int) =~= name);
}

} // verus!
