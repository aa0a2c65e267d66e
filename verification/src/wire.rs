//! The MessagePack value a topic's value travels as.
//!
//! The value itself is `rmpv::Value`. Nothing in this library looks inside
//! one: it is read through the accessors and built through the conversions
//! that `rmpv` offers. What an accessor gives for a value has a name here,
//! and what is said of the conversions is said over those names. All of it
//! is taken on trust from `rmpv`.

use vstd::prelude::*;

verus! {

/// Lets `rmpv::Value` stand in signatures. Nothing is known of what is
/// inside one but what the items below say.
#[verifier::external_type_specification]
#[verifier::external_body]
pub struct ExValue(rmpv::Value);

/// What `Value::as_bool` gives for `value`: the boolean of a boolean value.
pub uninterp spec fn value_as_bool(value: rmpv::Value) -> Option<bool>;

/// What `Value::as_i64` gives for `value`: the number of an integer value,
/// where it fits `i64`.
pub uninterp spec fn value_as_i64(value: rmpv::Value) -> Option<i64>;

/// What `Value::as_u64` gives for `value`: the number of an integer value,
/// where it is not negative.
pub uninterp spec fn value_as_u64(value: rmpv::Value) -> Option<u64>;

/// What `Value::as_str` gives for `value`: the text of a string value that
/// holds valid UTF-8.
pub uninterp spec fn value_as_str(value: rmpv::Value) -> Option<Seq<char>>;

/// What `Value::as_array` gives for `value`: the items of an array value, in
/// order.
pub uninterp spec fn value_as_array(value: rmpv::Value) -> Option<Seq<rmpv::Value>>;

/// Whether `value` is read as the boolean `b`, and as nothing else.
pub open spec fn reads_as_bool(value: rmpv::Value, b: bool) -> bool {
    &&& value_as_bool(value) == Some(b)
    &&& value_as_i64(value) is None
    &&& value_as_u64(value) is None
    &&& value_as_str(value) is None
    &&& value_as_array(value) is None
}

/// Whether `value` is read as the integer `n`, and as nothing else: as an
/// `i64` where `n` fits one, as a `u64` where `n` is not negative.
pub open spec fn reads_as_integer(value: rmpv::Value, n: int) -> bool {
    &&& value_as_bool(value) is None
    &&& value_as_i64(value) == if i64::MIN <= n <= i64::MAX {
        Some(n as i64)
    } else {
        None
    }
    &&& value_as_u64(value) == if 0 <= n <= u64::MAX {
        Some(n as u64)
    } else {
        None
    }
    &&& value_as_str(value) is None
    &&& value_as_array(value) is None
}

/// Whether `value` is read as the text `text`, and as nothing else.
pub open spec fn reads_as_text(value: rmpv::Value, text: Seq<char>) -> bool {
    &&& value_as_bool(value) is None
    &&& value_as_i64(value) is None
    &&& value_as_u64(value) is None
    &&& value_as_str(value) == Some(text)
    &&& value_as_array(value) is None
}

/// Whether `value` is read as the array of `items`, and as nothing else.
pub open spec fn reads_as_array(value: rmpv::Value, items: Seq<rmpv::Value>) -> bool {
    &&& value_as_bool(value) is None
    &&& value_as_i64(value) is None
    &&& value_as_u64(value) is None
    &&& value_as_str(value) is None
    &&& value_as_array(value) == Some(items)
}

/// `Value::as_bool` depends on the value alone.
pub assume_specification[ rmpv::Value::as_bool ](value: &rmpv::Value) -> (out: Option<bool>)
    ensures
        out == value_as_bool(*value),
;

/// `Value::as_i64` depends on the value alone.
pub assume_specification[ rmpv::Value::as_i64 ](value: &rmpv::Value) -> (out: Option<i64>)
    ensures
        out == value_as_i64(*value),
;

/// `Value::as_u64` depends on the value alone.
pub assume_specification[ rmpv::Value::as_u64 ](value: &rmpv::Value) -> (out: Option<u64>)
    ensures
        out == value_as_u64(*value),
;

/// `Value::as_str` depends on the value alone; the text it lends is the text
/// the value holds.
pub assume_specification<'a>[ rmpv::Value::as_str ](value: &'a rmpv::Value) -> (out: Option<
    &'a str,
>)
    ensures
        match out {
            Some(text) => value_as_str(*value) == Some(text@),
            None => value_as_str(*value) is None,
        },
;

/// `Value::as_array` depends on the value alone; the vector it lends holds
/// the items the value holds.
pub assume_specification<'a>[ rmpv::Value::as_array ](value: &'a rmpv::Value) -> (out: Option<
    &'a Vec<rmpv::Value>,
>)
    ensures
        match out {
            Some(items) => value_as_array(*value) == Some(items@),
            None => value_as_array(*value) is None,
        },
;

/// `Value::clone` gives a value equal to the one it was called on.
pub assume_specification[ <rmpv::Value as Clone>::clone ](value: &rmpv::Value) -> (out:
    rmpv::Value)
    ensures
        out == *value,
;

/// `Value::from` makes of a boolean the `Value::Boolean` that holds it.
/// `as_bool` gives the boolean of that; the other accessors give nothing
/// for a boolean.
pub assume_specification[ <rmpv::Value as From<bool>>::from ](b: bool) -> (out: rmpv::Value)
    ensures
        reads_as_bool(out, b),
;

/// `Value::from` makes of an `i64` the `Value::Integer` that holds it.
/// `as_i64` gives the number of that, and `as_u64` gives it where it is not
/// negative; the other accessors give nothing for an integer.
pub assume_specification[ <rmpv::Value as From<i64>>::from ](n: i64) -> (out: rmpv::Value)
    ensures
        reads_as_integer(out, n as int),
;

/// `Value::from` makes of a `u64` the `Value::Integer` that holds it.
/// `as_u64` gives the number of that, and `as_i64` gives it where it fits;
/// the other accessors give nothing for an integer.
pub assume_specification[ <rmpv::Value as From<u64>>::from ](n: u64) -> (out: rmpv::Value)
    ensures
        reads_as_integer(out, n as int),
;

/// `Value::from` makes of a `String` the `Value::String` that holds it.
/// `as_str` gives the text of that; the other accessors give nothing for a
/// string.
pub assume_specification[ <rmpv::Value as From<String>>::from ](s: String) -> (out: rmpv::Value)
    ensures
        reads_as_text(out, s@),
;

/// `Value::from` makes of a vector of values the `Value::Array` that holds
/// them. `as_array` gives the items of that; the other accessors give
/// nothing for an array.
pub assume_specification[ <rmpv::Value as From<Vec<rmpv::Value>>>::from ](
    items: Vec<rmpv::Value>,
) -> (out: rmpv::Value)
    ensures
        reads_as_array(out, items@),
;

} // verus!
