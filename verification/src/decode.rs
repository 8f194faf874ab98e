//! Cell decoders: one JSON value in, one typed value or the reason out.

use crate::error::{Axis, Reason, VectorError};
use crate::hex::{decode_hex, hex_decoded};
use crate::json::{Json, JsonView};
use crate::model::views;
use crate::records::{DbVector3, Identity, Timestamp};
use vstd::prelude::*;

verus! {

/// An unsigned 64-bit column: a number that is an unsigned integer.
pub open spec fn u64_of(cell: JsonView) -> Result<u64, Reason> {
    match cell.as_u64() {
        Some(n) => Ok(n),
        None => Err(Reason::NotUnsigned),
    }
}

/// An unsigned 32-bit column: an unsigned integer no greater than
/// `u32::MAX`. A greater one is refused, never truncated.
pub open spec fn u32_of(cell: JsonView) -> Result<u32, Reason> {
    match cell.as_u64() {
        Some(n) => if n <= u32::MAX {
            Ok(n as u32)
        } else {
            Err(Reason::TooLarge)
        },
        None => Err(Reason::NotUnsigned),
    }
}

/// A floating-point column: any number, as the bit pattern of its double.
pub open spec fn double_of(cell: JsonView) -> Result<u64, Reason> {
    match cell.as_double_bits() {
        Some(bits) => Ok(bits),
        None => Err(Reason::NotNumber),
    }
}

/// A text column: a string.
pub open spec fn text_of(cell: JsonView) -> Result<Seq<char>, Reason> {
    match cell.as_text() {
        Some(s) => Ok(s),
        None => Err(Reason::NotText),
    }
}

/// An optional foreign key: `null` for none, else an unsigned 32-bit integer.
pub open spec fn optional_u32_of(cell: JsonView) -> Result<Option<u32>, Reason> {
    if cell is Null {
        Ok(None)
    } else {
        match u32_of(cell) {
            Ok(n) => Ok(Some(n)),
            Err(reason) => Err(reason),
        }
    }
}

/// One component of a vector in object form.
pub open spec fn component_of(member: Option<JsonView>, axis: Axis) -> Result<u64, VectorError> {
    match member {
        Some(value) => match value.as_double_bits() {
            Some(bits) => Ok(bits),
            None => Err(VectorError::MissingComponent(axis)),
        },
        None => Err(VectorError::MissingComponent(axis)),
    }
}

/// One component of a vector in array form.
pub open spec fn element_of(value: JsonView, axis: Axis) -> Result<u64, VectorError> {
    match value.as_double_bits() {
        Some(bits) => Ok(bits),
        None => Err(VectorError::BadElement(axis)),
    }
}

/// The vector made of three components, or the first failure among them in
/// the order x, y, z.
pub open spec fn vector3_from(
    x: Result<u64, VectorError>,
    y: Result<u64, VectorError>,
    z: Result<u64, VectorError>,
) -> Result<DbVector3, VectorError> {
    match x {
        Err(e) => Err(e),
        Ok(x) => match y {
            Err(e) => Err(e),
            Ok(y) => match z {
                Err(e) => Err(e),
                Ok(z) => Ok(DbVector3 { x, y, z }),
            },
        },
    }
}

/// A vector column: an object with numeric members `x`, `y` and `z`, or an
/// array whose first three elements are numbers. Further members and
/// elements are ignored.
pub open spec fn vector3_of(cell: JsonView) -> Result<DbVector3, VectorError> {
    match cell {
        JsonView::Object(_) => vector3_from(
            component_of(cell.member("x"@), Axis::X),
            component_of(cell.member("y"@), Axis::Y),
            component_of(cell.member("z"@), Axis::Z),
        ),
        JsonView::Array(items) => if items.len() < 3 {
            Err(VectorError::TooFewElements)
        } else {
            vector3_from(
                element_of(items[0], Axis::X),
                element_of(items[1], Axis::Y),
                element_of(items[2], Axis::Z),
            )
        },
        _ => Err(VectorError::NotObjectOrArray),
    }
}

/// The identity that a hexadecimal text stands for.
pub open spec fn identity_from_hex(text: Seq<char>) -> Result<Seq<u8>, Reason> {
    match hex_decoded(text) {
        Some(bytes) => Ok(bytes),
        None => Err(Reason::InvalidHex),
    }
}

/// An identity given as a bare hexadecimal string.
pub open spec fn bare_identity_of(cell: JsonView) -> Result<Seq<u8>, Reason> {
    match cell.as_text() {
        Some(text) => identity_from_hex(text),
        None => Err(Reason::NotText),
    }
}

/// The identity wrapped in `items`: their first element, a hexadecimal
/// string. Further elements are ignored.
pub open spec fn identity_in(items: Seq<JsonView>) -> Result<Seq<u8>, Reason> {
    if items.len() == 0 {
        Err(Reason::EmptyArray)
    } else {
        bare_identity_of(items[0])
    }
}

/// An identity given as an array that wraps a hexadecimal string.
pub open spec fn wrapped_identity_of(cell: JsonView) -> Result<Seq<u8>, Reason> {
    match cell.as_array() {
        Some(items) => identity_in(items),
        None => Err(Reason::NotArray),
    }
}

/// An identity in either form: a bare hexadecimal string, or an array that
/// wraps one.
pub open spec fn identity_of(cell: JsonView) -> Result<Seq<u8>, Reason> {
    match cell {
        JsonView::Text(text) => identity_from_hex(text),
        JsonView::Array(items) => identity_in(items),
        _ => Err(Reason::NotTextOrArray),
    }
}

/// A timestamp: an array whose first element is a signed integer, the count
/// of microseconds from the Unix epoch. Further elements are ignored.
pub open spec fn timestamp_of(cell: JsonView) -> Result<Timestamp, Reason> {
    match cell.as_array() {
        Some(items) => if items.len() == 0 {
            Err(Reason::EmptyArray)
        } else {
            match items[0].as_i64() {
                Some(micros) => Ok(Timestamp { micros_since_unix_epoch: micros }),
                None => Err(Reason::NotInteger),
            }
        },
        None => Err(Reason::NotArray),
    }
}

/// Decodes an unsigned 64-bit column.
pub fn decode_u64(cell: &Json) -> (r: Result<u64, Reason>)
    ensures
        r == u64_of(cell@),
{
    match cell.as_u64() {
        Some(n) => Ok(n),
        None => Err(Reason::NotUnsigned),
    }
}

/// Decodes an unsigned 32-bit column.
pub fn decode_u32(cell: &Json) -> (r: Result<u32, Reason>)
    ensures
        r == u32_of(cell@),
{
    match cell.as_u64() {
        Some(n) => if n <= 0xffff_ffff {
            Ok(n as u32)
        } else {
            Err(Reason::TooLarge)
        },
        None => Err(Reason::NotUnsigned),
    }
}

/// Decodes a floating-point column.
pub fn decode_double(cell: &Json) -> (r: Result<u64, Reason>)
    ensures
        r == double_of(cell@),
{
    match cell.as_double_bits() {
        Some(bits) => Ok(bits),
        None => Err(Reason::NotNumber),
    }
}

/// Decodes a text column.
pub fn decode_text(cell: &Json) -> (r: Result<String, Reason>)
    ensures
        match r {
            Ok(s) => text_of(cell@) == Ok::<Seq<char>, Reason>(s@),
            Err(reason) => text_of(cell@) == Err::<Seq<char>, Reason>(reason),
        },
{
    match cell.as_text() {
        Some(s) => Ok(s.clone()),
        None => Err(Reason::NotText),
    }
}

/// Decodes an optional foreign key.
pub fn decode_optional_u32(cell: &Json) -> (r: Result<Option<u32>, Reason>)
    ensures
        r == optional_u32_of(cell@),
{
    if cell.is_null() {
        Ok(None)
    } else {
        match decode_u32(cell) {
            Ok(n) => Ok(Some(n)),
            Err(reason) => Err(reason),
        }
    }
}

fn decode_component(value: &Json, key: &str, axis: Axis) -> (r: Result<u64, VectorError>)
    ensures
        r == component_of(value@.member(key@), axis),
{
    match value.member(key) {
        Some(member) => match member.as_double_bits() {
            Some(bits) => Ok(bits),
            None => Err(VectorError::MissingComponent(axis)),
        },
        None => Err(VectorError::MissingComponent(axis)),
    }
}

fn decode_element(value: &Json, axis: Axis) -> (r: Result<u64, VectorError>)
    ensures
        r == element_of(value@, axis),
{
    match value.as_double_bits() {
        Some(bits) => Ok(bits),
        None => Err(VectorError::BadElement(axis)),
    }
}

/// Decodes a vector column from its object form or its array form.
pub fn parse_dbvector3(val: &Json) -> (r: Result<DbVector3, VectorError>)
    ensures
        r == vector3_of(val@),
{
    if val.is_object() {
        let x = match decode_component(val, "x", Axis::X) {
            Ok(x) => x,
            Err(e) => return Err(e),
        };
        let y = match decode_component(val, "y", Axis::Y) {
            Ok(y) => y,
            Err(e) => return Err(e),
        };
        let z = match decode_component(val, "z", Axis::Z) {
            Ok(z) => z,
            Err(e) => return Err(e),
        };
        Ok(DbVector3 { x, y, z })
    } else {
        match val.as_array() {
            Some(items) => {
                if items.len() < 3 {
                    return Err(VectorError::TooFewElements);
                }
                let x = match decode_element(&items[0], Axis::X) {
                    Ok(x) => x,
                    Err(e) => return Err(e),
                };
                let y = match decode_element(&items[1], Axis::Y) {
                    Ok(y) => y,
                    Err(e) => return Err(e),
                };
                let z = match decode_element(&items[2], Axis::Z) {
                    Ok(z) => z,
                    Err(e) => return Err(e),
                };
                Ok(DbVector3 { x, y, z })
            },
            None => Err(VectorError::NotObjectOrArray),
        }
    }
}

fn identity_from_text(text: &str) -> (r: Result<Identity, Reason>)
    ensures
        match r {
            Ok(id) => identity_from_hex(text@) == Ok::<Seq<u8>, Reason>(id@),
            Err(reason) => identity_from_hex(text@) == Err::<Seq<u8>, Reason>(reason),
        },
{
    match decode_hex(text) {
        Some(bytes) => Ok(Identity { bytes }),
        None => Err(Reason::InvalidHex),
    }
}

/// Decodes an identity given as a bare hexadecimal string.
pub fn decode_bare_identity(cell: &Json) -> (r: Result<Identity, Reason>)
    ensures
        match r {
            Ok(id) => bare_identity_of(cell@) == Ok::<Seq<u8>, Reason>(id@),
            Err(reason) => bare_identity_of(cell@) == Err::<Seq<u8>, Reason>(reason),
        },
{
    match cell.as_text() {
        Some(text) => identity_from_text(text.as_str()),
        None => Err(Reason::NotText),
    }
}

fn identity_from_items(items: &Vec<Json>) -> (r: Result<Identity, Reason>)
    ensures
        match r {
            Ok(id) => identity_in(views(items@)) == Ok::<Seq<u8>, Reason>(id@),
            Err(reason) => identity_in(views(items@)) == Err::<Seq<u8>, Reason>(reason),
        },
{
    if items.len() == 0 {
        Err(Reason::EmptyArray)
    } else {
        decode_bare_identity(&items[0])
    }
}

/// Decodes an identity given as an array that wraps a hexadecimal string.
pub fn decode_wrapped_identity(cell: &Json) -> (r: Result<Identity, Reason>)
    ensures
        match r {
            Ok(id) => wrapped_identity_of(cell@) == Ok::<Seq<u8>, Reason>(id@),
            Err(reason) => wrapped_identity_of(cell@) == Err::<Seq<u8>, Reason>(reason),
        },
{
    match cell.as_array() {
        Some(items) => identity_from_items(items),
        None => Err(Reason::NotArray),
    }
}

/// Decodes an identity in either form.
pub fn decode_identity(cell: &Json) -> (r: Result<Identity, Reason>)
    ensures
        match r {
            Ok(id) => identity_of(cell@) == Ok::<Seq<u8>, Reason>(id@),
            Err(reason) => identity_of(cell@) == Err::<Seq<u8>, Reason>(reason),
        },
{
    match cell.as_text() {
        Some(text) => identity_from_text(text.as_str()),
        None => match cell.as_array() {
            Some(items) => identity_from_items(items),
            None => Err(Reason::NotTextOrArray),
        },
    }
}

/// Decodes a timestamp.
pub fn decode_timestamp(cell: &Json) -> (r: Result<Timestamp, Reason>)
    ensures
        r == timestamp_of(cell@),
{
    match cell.as_array() {
        Some(items) => {
            if items.len() == 0 {
                Err(Reason::EmptyArray)
            } else {
                match items[0].as_i64() {
                    Some(micros) => Ok(Timestamp { micros_since_unix_epoch: micros }),
                    None => Err(Reason::NotInteger),
                }
            }
        },
        None => Err(Reason::NotArray),
    }
}

} // verus!
