//! Reading a kind from the bare number it is announced with.
//!
//! Unlike a token, a number that stands for no kind is refused, and the
//! refusal names the number.

use vstd::prelude::*;
use vstd::string::StringExecFns;
use crate::data_type::{DataType, is_type_id};
use crate::text::{decimal_text, signed_decimal};

verus! {

/// A number that was read where a kind's identifier was expected, and is
/// none.
#[derive(Debug, Clone, Copy, PartialEq, Eq, Structural)]
pub struct InvalidTypeId {
    /// The number that was read.
    pub id: i128,
}

/// What is said of a number that is no identifier.
pub open spec fn refusal(id: int) -> Seq<char> {
    signed_decimal(id) + " is not a valid type id"@
}

impl InvalidTypeId {
    /// Says which number was refused.
    pub fn message(&self) -> (text: String)
        ensures
            text@ == refusal(self.id as int),
    {
        let number = if self.id < 0 {
            let magnitude: u128 = ((-(self.id + 1)) as u128) + 1;
            proof {
                reveal_strlit("-");
            }
            assert("-"@ =~= seq!['-']);
            "-".to_owned().concat(decimal_text(magnitude).as_str())
        } else {
            decimal_text(self.id as u128)
        };
        number.concat(" is not a valid type id")
    }
}

/// Reads a kind from a number that a deserializer hands over.
#[derive(Debug, Clone, Copy)]
pub struct DataTypeVisitor;

/// The kind that the number `id` stands for, if it stands for one.
pub open spec fn kind_of_number(id: int) -> Option<DataType> {
    if 0 <= id <= u32::MAX && is_type_id(id as u32) {
        DataType::spec_from_id(id as u32)
    } else {
        None
    }
}

impl DataTypeVisitor {
    /// What this visitor is waiting for.
    pub fn expecting(&self) -> (text: String)
        ensures
            text@ == "a valid type id"@,
    {
        "a valid type id".to_owned()
    }

    /// Reads a kind from a signed number. A negative number is refused as
    /// any other number that stands for no kind.
    pub fn visit_i64(self, v: i64) -> (kind: Result<DataType, InvalidTypeId>)
        ensures
            match kind {
                Ok(kind) => kind_of_number(v as int) == Some(kind),
                Err(refused) => kind_of_number(v as int) is None && refused.id == v,
            },
    {
        match u64::try_from(v) {
            Ok(v) => self.visit_u64(v),
            Err(_) => Err(InvalidTypeId { id: v as i128 }),
        }
    }

    /// Reads a kind from an unsigned number. The number is refused if it
    /// does not fit 32 bits or stands for no kind.
    pub fn visit_u64(self, v: u64) -> (kind: Result<DataType, InvalidTypeId>)
        ensures
            match kind {
                Ok(kind) => kind_of_number(v as int) == Some(kind),
                Err(refused) => kind_of_number(v as int) is None && refused.id == v,
            },
    {
        match u32::try_from(v) {
            Ok(id) => match DataType::from_id(id) {
                Some(kind) => Ok(kind),
                None => Err(InvalidTypeId { id: v as i128 }),
            },
            Err(_) => Err(InvalidTypeId { id: v as i128 }),
        }
    }
}

} // verus!
