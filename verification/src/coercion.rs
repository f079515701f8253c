//! Reading a value as another type than the one it holds. Nothing here
//! happens by itself: a caller that wants a value coerced asks for it, and
//! is told when it cannot be done.

use crate::numbers::{
    clean_currency_text, i32_to_decimal, parse_i32_text, signed_decimal,
    spec_clean_currency_text, spec_parse_i32,
};
use crate::safe_variant::{SafeVariant, TypeMismatch, VariantTag, VariantValue};
use crate::text::{trim, trimmed};
use vstd::prelude::*;

verus! {

/// `value` as a value of the tag `target`: itself where it has that tag;
/// the decimal form of an integer where a string is asked for; the integer
/// that a string, trimmed, is the decimal form of where an integer is asked
/// for. Every other change is a mismatch.
pub open spec fn spec_change_type(value: VariantValue, target: VariantTag) -> Result<
    VariantValue,
    TypeMismatch,
> {
    let mismatch = Err(TypeMismatch { expected: target, found: value.tag() });
    if value.tag() == target {
        Ok(value)
    } else {
        match (value, target) {
            (VariantValue::Int32(v), VariantTag::String) => Ok(
                VariantValue::Text(signed_decimal(v as int)),
            ),
            (VariantValue::Text(s), VariantTag::Int32) => match spec_parse_i32(trimmed(s)) {
                Some(v) => Ok(VariantValue::Int32(v)),
                None => mismatch,
            },
            _ => mismatch,
        }
    }
}

/// Changes the type of a value, where that can be done without loss.
pub fn change_type(variant: &SafeVariant, target: VariantTag) -> (r: Result<
    SafeVariant,
    TypeMismatch,
>)
    ensures
        match spec_change_type(variant@, target) {
            Ok(value) => r is Ok && r->Ok_0@ == value,
            Err(mismatch) => r == Err::<SafeVariant, TypeMismatch>(mismatch),
        },
{
    let found = variant.tag();
    if found == target {
        return Ok(variant.clone());
    }
    match (variant, target) {
        (SafeVariant::Int32(v), VariantTag::String) => Ok(SafeVariant::String(i32_to_decimal(*v))),
        (SafeVariant::String(s), VariantTag::Int32) => {
            let text = trim(s.as_str());
            match parse_i32_text(text.as_str()) {
                Some(v) => Ok(SafeVariant::Int32(v)),
                None => Err(TypeMismatch { expected: target, found }),
            }
        },
        _ => Err(TypeMismatch { expected: target, found }),
    }
}

/// The integer in `variant`: the integer it holds, or the one its text,
/// trimmed, is the decimal form of. None for any other value.
pub open spec fn spec_variant_to_int(value: VariantValue) -> Option<i32> {
    match value {
        VariantValue::Int32(v) => Some(v),
        VariantValue::Text(s) => spec_parse_i32(trimmed(s)),
        _ => None,
    }
}

/// The integer in `variant`, read from text where the server sent text.
pub fn variant_to_int(variant: &SafeVariant) -> (r: Option<i32>)
    ensures
        r == spec_variant_to_int(variant@),
{
    match variant {
        SafeVariant::Int32(v) => Some(*v),
        SafeVariant::String(s) => {
            let text = trim(s.as_str());
            parse_i32_text(text.as_str())
        },
        _ => None,
    }
}

/// A float as the server hands it over.
#[derive(Debug, PartialEq, Eq)]
pub enum FloatReading {
    /// The bit pattern of the float the value holds.
    Bits { bits: u64 },
    /// The cleaned text of an amount, still to be read as a number.
    Text { text: String },
    /// The value holds neither.
    Nothing,
}

/// A [`FloatReading`] as a mathematical value.
pub enum FloatReadingView {
    Bits { bits: u64 },
    Text { text: Seq<char> },
    Nothing,
}

impl View for FloatReading {
    type V = FloatReadingView;

    open spec fn view(&self) -> FloatReadingView {
        match self {
            FloatReading::Bits { bits } => FloatReadingView::Bits { bits: *bits },
            FloatReading::Text { text } => FloatReadingView::Text { text: text@ },
            FloatReading::Nothing => FloatReadingView::Nothing,
        }
    }
}

pub open spec fn spec_variant_to_float(value: VariantValue) -> FloatReadingView {
    match value {
        VariantValue::Float64(bits) => FloatReadingView::Bits { bits },
        VariantValue::Text(s) => FloatReadingView::Text { text: spec_clean_currency_text(s) },
        _ => FloatReadingView::Nothing,
    }
}

/// The float in `variant`: its bit pattern where the value holds a float,
/// the cleaned amount where it holds text.
pub fn variant_to_float(variant: &SafeVariant) -> (r: FloatReading)
    ensures
        r@ == spec_variant_to_float(variant@),
{
    match variant {
        SafeVariant::Float64 { bits } => FloatReading::Bits { bits: *bits },
        SafeVariant::String(s) => FloatReading::Text { text: clean_currency_text(s.as_str()) },
        _ => FloatReading::Nothing,
    }
}

} // verus!
