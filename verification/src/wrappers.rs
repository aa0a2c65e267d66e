//! Values that travel as a text or as a list of bytes, and are told apart
//! from those only by the kind they are announced as.

use vstd::prelude::*;
use vstd::std_specs::cmp::PartialEqSpecImpl;
use crate::codec::NetworkTableData;
use crate::data_type::DataType;

verus! {

/// A JSON text.
#[derive(Clone, Debug)]
pub struct JsonString(pub String);

/// Raw binary data.
#[derive(Clone, Debug)]
pub struct RawData(pub Vec<u8>);

/// The bytes of a remote procedure call.
#[derive(Clone, Debug)]
pub struct Rpc(pub Vec<u8>);

/// The bytes of a Protocol Buffers message.
#[derive(Clone, Debug)]
pub struct Protobuf(pub Vec<u8>);

impl View for JsonString {
    type V = Seq<char>;

    open spec fn view(&self) -> Seq<char> {
        self.0@
    }
}

impl View for RawData {
    type V = Seq<u8>;

    open spec fn view(&self) -> Seq<u8> {
        self.0@
    }
}

impl View for Rpc {
    type V = Seq<u8>;

    open spec fn view(&self) -> Seq<u8> {
        self.0@
    }
}

impl View for Protobuf {
    type V = Seq<u8>;

    open spec fn view(&self) -> Seq<u8> {
        self.0@
    }
}

/// Two values are equal when their texts are.
impl PartialEq for JsonString {
    fn eq(&self, other: &JsonString) -> (same: bool) {
        self.0 == other.0
    }
}

impl PartialEqSpecImpl for JsonString {
    open spec fn obeys_eq_spec() -> bool {
        true
    }

    open spec fn eq_spec(&self, other: &JsonString) -> bool {
        self@ == other@
    }
}

/// Two values are equal when their bytes are.
impl PartialEq for RawData {
    fn eq(&self, other: &RawData) -> (same: bool) {
        let same = self.0 == other.0;
        assert(same == (self.0@ =~= other.0@));
        same
    }
}

impl PartialEqSpecImpl for RawData {
    open spec fn obeys_eq_spec() -> bool {
        true
    }

    open spec fn eq_spec(&self, other: &RawData) -> bool {
        self@ == other@
    }
}

/// Two values are equal when their bytes are.
impl PartialEq for Rpc {
    fn eq(&self, other: &Rpc) -> (same: bool) {
        let same = self.0 == other.0;
        assert(same == (self.0@ =~= other.0@));
        same
    }
}

impl PartialEqSpecImpl for Rpc {
    open spec fn obeys_eq_spec() -> bool {
        true
    }

    open spec fn eq_spec(&self, other: &Rpc) -> bool {
        self@ == other@
    }
}

/// Two values are equal when their bytes are.
impl PartialEq for Protobuf {
    fn eq(&self, other: &Protobuf) -> (same: bool) {
        let same = self.0 == other.0;
        assert(same == (self.0@ =~= other.0@));
        same
    }
}

impl PartialEqSpecImpl for Protobuf {
    open spec fn obeys_eq_spec() -> bool {
        true
    }

    open spec fn eq_spec(&self, other: &Protobuf) -> bool {
        self@ == other@
    }
}

/// Takes the text out of its wrapper.
impl From<JsonString> for String {
    fn from(value: JsonString) -> (out: String) {
        value.0
    }
}

impl vstd::std_specs::convert::FromSpecImpl<JsonString> for String {
    open spec fn obeys_from_spec() -> bool {
        true
    }

    open spec fn from_spec(value: JsonString) -> String {
        value.0
    }
}

/// Wraps the text.
impl From<String> for JsonString {
    fn from(value: String) -> (out: JsonString) {
        JsonString(value)
    }
}

impl vstd::std_specs::convert::FromSpecImpl<String> for JsonString {
    open spec fn obeys_from_spec() -> bool {
        true
    }

    open spec fn from_spec(value: String) -> JsonString {
        JsonString(value)
    }
}

/// Takes the bytes out of its wrapper.
impl From<RawData> for Vec<u8> {
    fn from(value: RawData) -> (out: Vec<u8>) {
        value.0
    }
}

impl vstd::std_specs::convert::FromSpecImpl<RawData> for Vec<u8> {
    open spec fn obeys_from_spec() -> bool {
        true
    }

    open spec fn from_spec(value: RawData) -> Vec<u8> {
        value.0
    }
}

/// Wraps the bytes.
impl From<Vec<u8>> for RawData {
    fn from(value: Vec<u8>) -> (out: RawData) {
        RawData(value)
    }
}

impl vstd::std_specs::convert::FromSpecImpl<Vec<u8>> for RawData {
    open spec fn obeys_from_spec() -> bool {
        true
    }

    open spec fn from_spec(value: Vec<u8>) -> RawData {
        RawData(value)
    }
}

/// Takes the bytes out of its wrapper.
impl From<Rpc> for Vec<u8> {
    fn from(value: Rpc) -> (out: Vec<u8>) {
        value.0
    }
}

impl vstd::std_specs::convert::FromSpecImpl<Rpc> for Vec<u8> {
    open spec fn obeys_from_spec() -> bool {
        true
    }

    open spec fn from_spec(value: Rpc) -> Vec<u8> {
        value.0
    }
}

/// Wraps the bytes.
impl From<Vec<u8>> for Rpc {
    fn from(value: Vec<u8>) -> (out: Rpc) {
        Rpc(value)
    }
}

impl vstd::std_specs::convert::FromSpecImpl<Vec<u8>> for Rpc {
    open spec fn obeys_from_spec() -> bool {
        true
    }

    open spec fn from_spec(value: Vec<u8>) -> Rpc {
        Rpc(value)
    }
}

/// Takes the bytes out of its wrapper.
impl From<Protobuf> for Vec<u8> {
    fn from(value: Protobuf) -> (out: Vec<u8>) {
        value.0
    }
}

impl vstd::std_specs::convert::FromSpecImpl<Protobuf> for Vec<u8> {
    open spec fn obeys_from_spec() -> bool {
        true
    }

    open spec fn from_spec(value: Protobuf) -> Vec<u8> {
        value.0
    }
}

/// Wraps the bytes.
impl From<Vec<u8>> for Protobuf {
    fn from(value: Vec<u8>) -> (out: Protobuf) {
        Protobuf(value)
    }
}

impl vstd::std_specs::convert::FromSpecImpl<Vec<u8>> for Protobuf {
    open spec fn obeys_from_spec() -> bool {
        true
    }

    open spec fn from_spec(value: Vec<u8>) -> Protobuf {
        Protobuf(value)
    }
}

impl RawData {
    /// No bytes.
    pub fn new() -> (data: RawData)
        ensures
            data@ == Seq::<u8>::empty(),
    {
        RawData(Vec::new())
    }

    /// Adds `byte` after the bytes that are there.
    pub fn push(&mut self, byte: u8)
        ensures
            final(self)@ == old(self)@.push(byte),
    {
        self.0.push(byte);
    }
}

impl Rpc {
    /// No bytes.
    pub fn new() -> (data: Rpc)
        ensures
            data@ == Seq::<u8>::empty(),
    {
        Rpc(Vec::new())
    }

    /// Adds `byte` after the bytes that are there.
    pub fn push(&mut self, byte: u8)
        ensures
            final(self)@ == old(self)@.push(byte),
    {
        self.0.push(byte);
    }
}

impl Protobuf {
    /// No bytes.
    pub fn new() -> (data: Protobuf)
        ensures
            data@ == Seq::<u8>::empty(),
    {
        Protobuf(Vec::new())
    }

    /// Adds `byte` after the bytes that are there.
    pub fn push(&mut self, byte: u8)
        ensures
            final(self)@ == old(self)@.push(byte),
    {
        self.0.push(byte);
    }
}

/// A list of bytes stands for the bytes themselves.
pub proof fn lemma_bytes_model(bytes: Vec<u8>)
    ensures
        bytes.model() == bytes@,
{
    assert(bytes.model() =~= bytes@);
}

/// A JSON text travels as a text does.
impl NetworkTableData for JsonString {
    type Model = Seq<char>;

    open spec fn model(self) -> Seq<char> {
        self@
    }

    open spec fn spec_data_type() -> DataType {
        DataType::Json
    }

    open spec fn decoded(value: rmpv::Value) -> Option<Seq<char>> {
        <String as NetworkTableData>::decoded(value)
    }

    open spec fn encodes(model: Seq<char>, value: rmpv::Value) -> bool {
        <String as NetworkTableData>::encodes(model, value)
    }

    proof fn lemma_round_trip(model: Seq<char>, value: rmpv::Value) {
    }

    fn data_type() -> (kind: DataType) {
        DataType::Json
    }

    fn from_value(value: &rmpv::Value) -> (out: Option<JsonString>) {
        match String::from_value(value) {
            Some(text) => Some(JsonString(text)),
            None => None,
        }
    }

    fn into_value(self) -> (value: rmpv::Value) {
        self.0.into_value()
    }
}

/// Raw data travels as a list of bytes does: an array of one integer a byte.
impl NetworkTableData for RawData {
    type Model = Seq<u8>;

    open spec fn model(self) -> Seq<u8> {
        self@
    }

    open spec fn spec_data_type() -> DataType {
        DataType::Raw
    }

    open spec fn decoded(value: rmpv::Value) -> Option<Seq<u8>> {
        <Vec<u8> as NetworkTableData>::decoded(value)
    }

    open spec fn encodes(model: Seq<u8>, value: rmpv::Value) -> bool {
        <Vec<u8> as NetworkTableData>::encodes(model, value)
    }

    proof fn lemma_round_trip(model: Seq<u8>, value: rmpv::Value) {
        <Vec<u8> as NetworkTableData>::lemma_round_trip(model, value);
    }

    fn data_type() -> (kind: DataType) {
        DataType::Raw
    }

    fn from_value(value: &rmpv::Value) -> (out: Option<RawData>) {
        match Vec::<u8>::from_value(value) {
            Some(bytes) => {
                proof {
                    lemma_bytes_model(bytes);
                }
                Some(RawData(bytes))
            },
            None => None,
        }
    }

    fn into_value(self) -> (value: rmpv::Value) {
        proof {
            lemma_bytes_model(self.0);
        }
        self.0.into_value()
    }
}

/// The bytes of a call travel as a list of bytes does.
impl NetworkTableData for Rpc {
    type Model = Seq<u8>;

    open spec fn model(self) -> Seq<u8> {
        self@
    }

    open spec fn spec_data_type() -> DataType {
        DataType::Rpc
    }

    open spec fn decoded(value: rmpv::Value) -> Option<Seq<u8>> {
        <Vec<u8> as NetworkTableData>::decoded(value)
    }

    open spec fn encodes(model: Seq<u8>, value: rmpv::Value) -> bool {
        <Vec<u8> as NetworkTableData>::encodes(model, value)
    }

    proof fn lemma_round_trip(model: Seq<u8>, value: rmpv::Value) {
        <Vec<u8> as NetworkTableData>::lemma_round_trip(model, value);
    }

    fn data_type() -> (kind: DataType) {
        DataType::Rpc
    }

    fn from_value(value: &rmpv::Value) -> (out: Option<Rpc>) {
        match Vec::<u8>::from_value(value) {
            Some(bytes) => {
                proof {
                    lemma_bytes_model(bytes);
                }
                Some(Rpc(bytes))
            },
            None => None,
        }
    }

    fn into_value(self) -> (value: rmpv::Value) {
        proof {
            lemma_bytes_model(self.0);
        }
        self.0.into_value()
    }
}

/// The bytes of a message travel as a list of bytes does.
impl NetworkTableData for Protobuf {
    type Model = Seq<u8>;

    open spec fn model(self) -> Seq<u8> {
        self@
    }

    open spec fn spec_data_type() -> DataType {
        DataType::Protobuf
    }

    open spec fn decoded(value: rmpv::Value) -> Option<Seq<u8>> {
        <Vec<u8> as NetworkTableData>::decoded(value)
    }

    open spec fn encodes(model: Seq<u8>, value: rmpv::Value) -> bool {
        <Vec<u8> as NetworkTableData>::encodes(model, value)
    }

    proof fn lemma_round_trip(model: Seq<u8>, value: rmpv::Value) {
        <Vec<u8> as NetworkTableData>::lemma_round_trip(model, value);
    }

    fn data_type() -> (kind: DataType) {
        DataType::Protobuf
    }

    fn from_value(value: &rmpv::Value) -> (out: Option<Protobuf>) {
        match Vec::<u8>::from_value(value) {
            Some(bytes) => {
                proof {
                    lemma_bytes_model(bytes);
                }
                Some(Protobuf(bytes))
            },
            None => None,
        }
    }

    fn into_value(self) -> (value: rmpv::Value) {
        proof {
            lemma_bytes_model(self.0);
        }
        self.0.into_value()
    }
}

/// A MessagePack value that the application does not look into travels as
/// itself.
impl NetworkTableData for rmpv::Value {
    type Model = rmpv::Value;

    open spec fn model(self) -> rmpv::Value {
        self
    }

    open spec fn spec_data_type() -> DataType {
        DataType::Msgpack
    }

    open spec fn decoded(value: rmpv::Value) -> Option<rmpv::Value> {
        Some(value)
    }

    open spec fn encodes(model: rmpv::Value, value: rmpv::Value) -> bool {
        value == model
    }

    proof fn lemma_round_trip(model: rmpv::Value, value: rmpv::Value) {
    }

    fn data_type() -> (kind: DataType) {
        DataType::Msgpack
    }

    fn from_value(value: &rmpv::Value) -> (out: Option<rmpv::Value>) {
        Some(value.clone())
    }

    fn into_value(self) -> (value: rmpv::Value) {
        self
    }
}

} // verus!
