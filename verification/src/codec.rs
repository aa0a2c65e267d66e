//! Typed values and their conversion to and from the value they travel as.
//!
//! Encoding a typed value always succeeds. Decoding answers `None` whenever
//! the wire value has another shape than the type asks for, or holds a number
//! that the type cannot hold.

use vstd::prelude::*;
use crate::data_type::DataType;
use crate::wire::{
    reads_as_array,
    reads_as_bool,
    reads_as_integer,
    reads_as_text,
    value_as_array,
    value_as_bool,
    value_as_i64,
    value_as_str,
    value_as_u64,
};

verus! {

/// A piece of data that can be sent to and received from a server.
pub trait NetworkTableData: Clone {
    /// What a value of this type stands for.
    type Model;

    /// What `self` stands for.
    spec fn model(self) -> Self::Model;

    /// The kind that values of this type are announced as.
    spec fn spec_data_type() -> DataType;

    /// What `value` decodes to, if it decodes.
    spec fn decoded(value: rmpv::Value) -> Option<Self::Model>;

    /// Whether `value` is an encoding of `model`.
    spec fn encodes(model: Self::Model, value: rmpv::Value) -> bool;

    /// Decoding an encoding of `model` gives `model` back.
    proof fn lemma_round_trip(model: Self::Model, value: rmpv::Value)
        requires
            Self::encodes(model, value),
        ensures
            Self::decoded(value) == Some(model),
    ;

    /// The kind that values of this type are announced as.
    fn data_type() -> (kind: DataType)
        ensures
            kind == Self::spec_data_type(),
    ;

    /// Reads a value of this type out of a wire value.
    fn from_value(value: &rmpv::Value) -> (out: Option<Self>)
        ensures
            match out {
                Some(data) => Self::decoded(*value) == Some(data.model()),
                None => Self::decoded(*value) is None,
            },
    ;

    /// Turns this value into the wire value that stands for it.
    fn into_value(self) -> (value: rmpv::Value)
        ensures
            Self::encodes(self.model(), value),
    ;
}

/// A boolean travels as a wire boolean and decodes from nothing else.
impl NetworkTableData for bool {
    type Model = bool;

    open spec fn model(self) -> bool {
        self
    }

    open spec fn spec_data_type() -> DataType {
        DataType::Boolean
    }

    open spec fn decoded(value: rmpv::Value) -> Option<bool> {
        value_as_bool(value)
    }

    open spec fn encodes(model: bool, value: rmpv::Value) -> bool {
        reads_as_bool(value, model)
    }

    proof fn lemma_round_trip(model: bool, value: rmpv::Value) {
    }

    fn data_type() -> (kind: DataType) {
        DataType::Boolean
    }

    fn from_value(value: &rmpv::Value) -> (out: Option<bool>) {
        value.as_bool()
    }

    fn into_value(self) -> (value: rmpv::Value) {
        rmpv::Value::from(self)
    }
}

/// An `i8` travels as a wire integer. It decodes from a wire integer that
/// fits `i8`.
impl NetworkTableData for i8 {
    type Model = i8;

    open spec fn model(self) -> i8 {
        self
    }

    open spec fn spec_data_type() -> DataType {
        DataType::Int
    }

    open spec fn decoded(value: rmpv::Value) -> Option<i8> {
        match value_as_i64(value) {
            Some(n) => if i8::MIN <= n <= i8::MAX {
                Some(n as i8)
            } else {
                None
            },
            None => None,
        }
    }

    open spec fn encodes(model: i8, value: rmpv::Value) -> bool {
        reads_as_integer(value, model as int)
    }

    proof fn lemma_round_trip(model: i8, value: rmpv::Value) {
    }

    fn data_type() -> (kind: DataType) {
        DataType::Int
    }

    fn from_value(value: &rmpv::Value) -> (out: Option<i8>) {
        match value.as_i64() {
            Some(n) => match i8::try_from(n) {
                Ok(data) => Some(data),
                Err(_) => None,
            },
            None => None,
        }
    }

    fn into_value(self) -> (value: rmpv::Value) {
        rmpv::Value::from(self as i64)
    }
}

/// An `i16` travels as a wire integer. It decodes from a wire integer that
/// fits `i16`.
impl NetworkTableData for i16 {
    type Model = i16;

    open spec fn model(self) -> i16 {
        self
    }

    open spec fn spec_data_type() -> DataType {
        DataType::Int
    }

    open spec fn decoded(value: rmpv::Value) -> Option<i16> {
        match value_as_i64(value) {
            Some(n) => if i16::MIN <= n <= i16::MAX {
                Some(n as i16)
            } else {
                None
            },
            None => None,
        }
    }

    open spec fn encodes(model: i16, value: rmpv::Value) -> bool {
        reads_as_integer(value, model as int)
    }

    proof fn lemma_round_trip(model: i16, value: rmpv::Value) {
    }

    fn data_type() -> (kind: DataType) {
        DataType::Int
    }

    fn from_value(value: &rmpv::Value) -> (out: Option<i16>) {
        match value.as_i64() {
            Some(n) => match i16::try_from(n) {
                Ok(data) => Some(data),
                Err(_) => None,
            },
            None => None,
        }
    }

    fn into_value(self) -> (value: rmpv::Value) {
        rmpv::Value::from(self as i64)
    }
}

/// An `i32` travels as a wire integer. It decodes from a wire integer that
/// fits `i32`.
impl NetworkTableData for i32 {
    type Model = i32;

    open spec fn model(self) -> i32 {
        self
    }

    open spec fn spec_data_type() -> DataType {
        DataType::Int
    }

    open spec fn decoded(value: rmpv::Value) -> Option<i32> {
        match value_as_i64(value) {
            Some(n) => if i32::MIN <= n <= i32::MAX {
                Some(n as i32)
            } else {
                None
            },
            None => None,
        }
    }

    open spec fn encodes(model: i32, value: rmpv::Value) -> bool {
        reads_as_integer(value, model as int)
    }

    proof fn lemma_round_trip(model: i32, value: rmpv::Value) {
    }

    fn data_type() -> (kind: DataType) {
        DataType::Int
    }

    fn from_value(value: &rmpv::Value) -> (out: Option<i32>) {
        match value.as_i64() {
            Some(n) => match i32::try_from(n) {
                Ok(data) => Some(data),
                Err(_) => None,
            },
            None => None,
        }
    }

    fn into_value(self) -> (value: rmpv::Value) {
        rmpv::Value::from(self as i64)
    }
}

/// An `i64` travels as a wire integer. It decodes from a wire integer that
/// fits `i64`.
impl NetworkTableData for i64 {
    type Model = i64;

    open spec fn model(self) -> i64 {
        self
    }

    open spec fn spec_data_type() -> DataType {
        DataType::Int
    }

    open spec fn decoded(value: rmpv::Value) -> Option<i64> {
        value_as_i64(value)
    }

    open spec fn encodes(model: i64, value: rmpv::Value) -> bool {
        reads_as_integer(value, model as int)
    }

    proof fn lemma_round_trip(model: i64, value: rmpv::Value) {
    }

    fn data_type() -> (kind: DataType) {
        DataType::Int
    }

    fn from_value(value: &rmpv::Value) -> (out: Option<i64>) {
        value.as_i64()
    }

    fn into_value(self) -> (value: rmpv::Value) {
        rmpv::Value::from(self)
    }
}

/// A `u8` travels as a wire integer. It decodes from a wire integer that
/// is not negative and fits `u8`.
impl NetworkTableData for u8 {
    type Model = u8;

    open spec fn model(self) -> u8 {
        self
    }

    open spec fn spec_data_type() -> DataType {
        DataType::Int
    }

    open spec fn decoded(value: rmpv::Value) -> Option<u8> {
        match value_as_u64(value) {
            Some(n) => if n <= u8::MAX {
                Some(n as u8)
            } else {
                None
            },
            None => None,
        }
    }

    open spec fn encodes(model: u8, value: rmpv::Value) -> bool {
        reads_as_integer(value, model as int)
    }

    proof fn lemma_round_trip(model: u8, value: rmpv::Value) {
    }

    fn data_type() -> (kind: DataType) {
        DataType::Int
    }

    fn from_value(value: &rmpv::Value) -> (out: Option<u8>) {
        match value.as_u64() {
            Some(n) => match u8::try_from(n) {
                Ok(data) => Some(data),
                Err(_) => None,
            },
            None => None,
        }
    }

    fn into_value(self) -> (value: rmpv::Value) {
        rmpv::Value::from(self as u64)
    }
}

/// A `u16` travels as a wire integer. It decodes from a wire integer that
/// is not negative and fits `u16`.
impl NetworkTableData for u16 {
    type Model = u16;

    open spec fn model(self) -> u16 {
        self
    }

    open spec fn spec_data_type() -> DataType {
        DataType::Int
    }

    open spec fn decoded(value: rmpv::Value) -> Option<u16> {
        match value_as_u64(value) {
            Some(n) => if n <= u16::MAX {
                Some(n as u16)
            } else {
                None
            },
            None => None,
        }
    }

    open spec fn encodes(model: u16, value: rmpv::Value) -> bool {
        reads_as_integer(value, model as int)
    }

    proof fn lemma_round_trip(model: u16, value: rmpv::Value) {
    }

    fn data_type() -> (kind: DataType) {
        DataType::Int
    }

    fn from_value(value: &rmpv::Value) -> (out: Option<u16>) {
        match value.as_u64() {
            Some(n) => match u16::try_from(n) {
                Ok(data) => Some(data),
                Err(_) => None,
            },
            None => None,
        }
    }

    fn into_value(self) -> (value: rmpv::Value) {
        rmpv::Value::from(self as u64)
    }
}

/// A `u32` travels as a wire integer. It decodes from a wire integer that
/// is not negative and fits `u32`.
impl NetworkTableData for u32 {
    type Model = u32;

    open spec fn model(self) -> u32 {
        self
    }

    open spec fn spec_data_type() -> DataType {
        DataType::Int
    }

    open spec fn decoded(value: rmpv::Value) -> Option<u32> {
        match value_as_u64(value) {
            Some(n) => if n <= u32::MAX {
                Some(n as u32)
            } else {
                None
            },
            None => None,
        }
    }

    open spec fn encodes(model: u32, value: rmpv::Value) -> bool {
        reads_as_integer(value, model as int)
    }

    proof fn lemma_round_trip(model: u32, value: rmpv::Value) {
    }

    fn data_type() -> (kind: DataType) {
        DataType::Int
    }

    fn from_value(value: &rmpv::Value) -> (out: Option<u32>) {
        match value.as_u64() {
            Some(n) => match u32::try_from(n) {
                Ok(data) => Some(data),
                Err(_) => None,
            },
            None => None,
        }
    }

    fn into_value(self) -> (value: rmpv::Value) {
        rmpv::Value::from(self as u64)
    }
}

/// A `u64` travels as a wire integer. It decodes from a wire integer that
/// is not negative.
impl NetworkTableData for u64 {
    type Model = u64;

    open spec fn model(self) -> u64 {
        self
    }

    open spec fn spec_data_type() -> DataType {
        DataType::Int
    }

    open spec fn decoded(value: rmpv::Value) -> Option<u64> {
        value_as_u64(value)
    }

    open spec fn encodes(model: u64, value: rmpv::Value) -> bool {
        reads_as_integer(value, model as int)
    }

    proof fn lemma_round_trip(model: u64, value: rmpv::Value) {
    }

    fn data_type() -> (kind: DataType) {
        DataType::Int
    }

    fn from_value(value: &rmpv::Value) -> (out: Option<u64>) {
        value.as_u64()
    }

    fn into_value(self) -> (value: rmpv::Value) {
        rmpv::Value::from(self)
    }
}

/// A text travels as a wire string. It decodes from a wire string that holds
/// valid UTF-8.
impl NetworkTableData for String {
    type Model = Seq<char>;

    open spec fn model(self) -> Seq<char> {
        self@
    }

    open spec fn spec_data_type() -> DataType {
        DataType::String
    }

    open spec fn decoded(value: rmpv::Value) -> Option<Seq<char>> {
        value_as_str(value)
    }

    open spec fn encodes(model: Seq<char>, value: rmpv::Value) -> bool {
        reads_as_text(value, model)
    }

    proof fn lemma_round_trip(model: Seq<char>, value: rmpv::Value) {
    }

    fn data_type() -> (kind: DataType) {
        DataType::String
    }

    fn from_value(value: &rmpv::Value) -> (out: Option<String>) {
        match value.as_str() {
            Some(text) => Some(text.to_owned()),
            None => None,
        }
    }

    fn into_value(self) -> (value: rmpv::Value) {
        rmpv::Value::from(self)
    }
}

/// A type of data whose lists are data too.
pub trait ArrayElement: NetworkTableData {
    /// The kind that lists of this type are announced as.
    spec fn spec_array_type() -> DataType;

    /// The kind that lists of this type are announced as.
    fn array_type() -> (kind: DataType)
        ensures
            kind == Self::spec_array_type(),
    ;
}

impl ArrayElement for bool {
    open spec fn spec_array_type() -> DataType {
        DataType::BooleanArray
    }

    fn array_type() -> (kind: DataType) {
        DataType::BooleanArray
    }
}

impl ArrayElement for i8 {
    open spec fn spec_array_type() -> DataType {
        DataType::IntArray
    }

    fn array_type() -> (kind: DataType) {
        DataType::IntArray
    }
}

impl ArrayElement for i16 {
    open spec fn spec_array_type() -> DataType {
        DataType::IntArray
    }

    fn array_type() -> (kind: DataType) {
        DataType::IntArray
    }
}

impl ArrayElement for i32 {
    open spec fn spec_array_type() -> DataType {
        DataType::IntArray
    }

    fn array_type() -> (kind: DataType) {
        DataType::IntArray
    }
}

impl ArrayElement for i64 {
    open spec fn spec_array_type() -> DataType {
        DataType::IntArray
    }

    fn array_type() -> (kind: DataType) {
        DataType::IntArray
    }
}

impl ArrayElement for u8 {
    open spec fn spec_array_type() -> DataType {
        DataType::IntArray
    }

    fn array_type() -> (kind: DataType) {
        DataType::IntArray
    }
}

impl ArrayElement for u16 {
    open spec fn spec_array_type() -> DataType {
        DataType::IntArray
    }

    fn array_type() -> (kind: DataType) {
        DataType::IntArray
    }
}

impl ArrayElement for u32 {
    open spec fn spec_array_type() -> DataType {
        DataType::IntArray
    }

    fn array_type() -> (kind: DataType) {
        DataType::IntArray
    }
}

impl ArrayElement for u64 {
    open spec fn spec_array_type() -> DataType {
        DataType::IntArray
    }

    fn array_type() -> (kind: DataType) {
        DataType::IntArray
    }
}

impl ArrayElement for String {
    open spec fn spec_array_type() -> DataType {
        DataType::StringArray
    }

    fn array_type() -> (kind: DataType) {
        DataType::StringArray
    }
}

/// Whether every one of `items` decodes as a `T`.
pub open spec fn all_decode<T: NetworkTableData>(items: Seq<rmpv::Value>) -> bool {
    forall|i: int| 0 <= i < items.len() ==> (#[trigger] T::decoded(items[i])) is Some
}

/// What each of `items` decodes to as a `T`, in order.
pub open spec fn decoded_items<T: NetworkTableData>(items: Seq<rmpv::Value>) -> Seq<T::Model> {
    Seq::new(items.len(), |i: int| T::decoded(items[i])->0)
}

/// Whether `items` holds, in order, an encoding of each of `models`.
pub open spec fn items_encode<T: NetworkTableData>(
    models: Seq<T::Model>,
    items: Seq<rmpv::Value>,
) -> bool {
    &&& items.len() == models.len()
    &&& forall|i: int| 0 <= i < models.len() ==> #[trigger] T::encodes(models[i], items[i])
}

/// A list travels as an array that holds each item's own encoding, in order.
/// It decodes only if the wire value is an array and every item of it
/// decodes.
impl<T: ArrayElement> NetworkTableData for Vec<T> {
    type Model = Seq<T::Model>;

    open spec fn model(self) -> Seq<T::Model> {
        Seq::new(self@.len(), |i: int| self@[i].model())
    }

    open spec fn spec_data_type() -> DataType {
        T::spec_array_type()
    }

    open spec fn decoded(value: rmpv::Value) -> Option<Seq<T::Model>> {
        match value_as_array(value) {
            Some(items) => if all_decode::<T>(items) {
                Some(decoded_items::<T>(items))
            } else {
                None
            },
            None => None,
        }
    }

    open spec fn encodes(model: Seq<T::Model>, value: rmpv::Value) -> bool {
        match value_as_array(value) {
            Some(items) => reads_as_array(value, items) && items_encode::<T>(model, items),
            None => false,
        }
    }

    proof fn lemma_round_trip(model: Seq<T::Model>, value: rmpv::Value) {
        let items = value_as_array(value)->0;
        assert forall|i: int| 0 <= i < items.len() implies (#[trigger] T::decoded(items[i]))
            == Some(model[i]) by {
            assert(T::encodes(model[i], items[i]));
            T::lemma_round_trip(model[i], items[i]);
        }
        assert(decoded_items::<T>(items) =~= model);
    }

    fn data_type() -> (kind: DataType) {
        T::array_type()
    }

    fn from_value(value: &rmpv::Value) -> (out: Option<Vec<T>>) {
        match value.as_array() {
            None => None,
            Some(items) => {
                let mut data: Vec<T> = Vec::new();
                let mut i: usize = 0;
                while i < items.len()
                    invariant
                        value_as_array(*value) == Some(items@),
                        i <= items.len(),
                        data.len() == i,
                        forall|j: int|
                            0 <= j < i ==> (#[trigger] T::decoded(items@[j])) == Some(
                                data@[j].model(),
                            ),
                    decreases items.len() - i,
                {
                    match T::from_value(&items[i]) {
                        Some(item) => {
                            data.push(item);
                        },
                        None => {
                            assert(T::decoded(items@[i as int]) is None);
                            return None;
                        },
                    }
                    i += 1;
                }
                assert(decoded_items::<T>(items@) =~= data.model());
                Some(data)
            },
        }
    }

    fn into_value(self) -> (value: rmpv::Value) {
        let ghost models = self.model();
        let mut items: Vec<rmpv::Value> = Vec::new();
        for item in iter: self.into_iter()
            invariant
                iter.seq() == self@,
                models == self.model(),
                items.len() == iter.index(),
                forall|j: int|
                    0 <= j < items.len() ==> #[trigger] T::encodes(models[j], items@[j]),
        {
            items.push(item.into_value());
        }
        rmpv::Value::from(items)
    }
}

/// A wire integer decodes as each integer type exactly if the number fits
/// the type, and then as that number.
pub proof fn lemma_integer_narrows(n: int, value: rmpv::Value)
    requires
        reads_as_integer(value, n),
    ensures
        <i8 as NetworkTableData>::decoded(value) == if i8::MIN <= n <= i8::MAX {
            Some(n as i8)
        } else {
            None
        },
        <i16 as NetworkTableData>::decoded(value) == if i16::MIN <= n <= i16::MAX {
            Some(n as i16)
        } else {
            None
        },
        <i32 as NetworkTableData>::decoded(value) == if i32::MIN <= n <= i32::MAX {
            Some(n as i32)
        } else {
            None
        },
        <i64 as NetworkTableData>::decoded(value) == if i64::MIN <= n <= i64::MAX {
            Some(n as i64)
        } else {
            None
        },
        <u8 as NetworkTableData>::decoded(value) == if 0 <= n <= u8::MAX {
            Some(n as u8)
        } else {
            None
        },
        <u16 as NetworkTableData>::decoded(value) == if 0 <= n <= u16::MAX {
            Some(n as u16)
        } else {
            None
        },
        <u32 as NetworkTableData>::decoded(value) == if 0 <= n <= u32::MAX {
            Some(n as u32)
        } else {
            None
        },
        <u64 as NetworkTableData>::decoded(value) == if 0 <= n <= u64::MAX {
            Some(n as u64)
        } else {
            None
        },
        <bool as NetworkTableData>::decoded(value) is None,
        <String as NetworkTableData>::decoded(value) is None,
{
}

/// A wire string decodes as no boolean and as no integer.
pub proof fn lemma_text_is_no_number(text: Seq<char>, value: rmpv::Value)
    requires
        reads_as_text(value, text),
    ensures
        <bool as NetworkTableData>::decoded(value) is None,
        <i8 as NetworkTableData>::decoded(value) is None,
        <i16 as NetworkTableData>::decoded(value) is None,
        <i32 as NetworkTableData>::decoded(value) is None,
        <i64 as NetworkTableData>::decoded(value) is None,
        <u8 as NetworkTableData>::decoded(value) is None,
        <u16 as NetworkTableData>::decoded(value) is None,
        <u32 as NetworkTableData>::decoded(value) is None,
        <u64 as NetworkTableData>::decoded(value) is None,
{
}

/// A list decodes wholly or not at all: one item of the array that does not
/// decode makes the whole array decode to nothing.
pub proof fn lemma_one_bad_item_fails_the_list<T: ArrayElement>(value: rmpv::Value, i: int)
    requires
        value_as_array(value) matches Some(items) && 0 <= i < items.len() && T::decoded(
            items[i],
        ) is None,
    ensures
        <Vec<T> as NetworkTableData>::decoded(value) is None,
{
}

/// A value that is no array decodes as no list.
pub proof fn lemma_no_array_is_no_list<T: ArrayElement>(value: rmpv::Value)
    requires
        value_as_array(value) is None,
    ensures
        <Vec<T> as NetworkTableData>::decoded(value) is None,
{
}

} // verus!
