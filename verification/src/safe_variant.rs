//! The tagged value exchanged with the automation server, and the flat
//! record it is marshaled into and decoded from.

use vstd::prelude::*;

verus! {

/// Type code of an empty value.
pub const VT_EMPTY: u16 = 0;

/// Type code of a 32-bit signed integer.
pub const VT_I4: u16 = 3;

/// Type code of a 64-bit float.
pub const VT_R8: u16 = 5;

/// Type code of a string.
pub const VT_BSTR: u16 = 8;

/// Type code of a handle to a server object.
pub const VT_DISPATCH: u16 = 9;

/// The tag of a value.
#[derive(Debug, Clone, Copy, PartialEq, Eq, Structural)]
pub enum VariantTag {
    Empty,
    Int32,
    Float64,
    String,
    ObjectHandle,
}

impl VariantTag {
    /// The type code that stands for this tag on the wire.
    pub open spec fn spec_type_code(self) -> u16 {
        match self {
            VariantTag::Empty => VT_EMPTY,
            VariantTag::Int32 => VT_I4,
            VariantTag::Float64 => VT_R8,
            VariantTag::String => VT_BSTR,
            VariantTag::ObjectHandle => VT_DISPATCH,
        }
    }

    pub fn type_code(self) -> (code: u16)
        ensures
            code == self.spec_type_code(),
    {
        match self {
            VariantTag::Empty => VT_EMPTY,
            VariantTag::Int32 => VT_I4,
            VariantTag::Float64 => VT_R8,
            VariantTag::String => VT_BSTR,
            VariantTag::ObjectHandle => VT_DISPATCH,
        }
    }

    /// The tag a type code stands for, if it is one of the five.
    pub open spec fn spec_from_type_code(code: u16) -> Option<VariantTag> {
        if code == VT_EMPTY {
            Some(VariantTag::Empty)
        } else if code == VT_I4 {
            Some(VariantTag::Int32)
        } else if code == VT_R8 {
            Some(VariantTag::Float64)
        } else if code == VT_BSTR {
            Some(VariantTag::String)
        } else if code == VT_DISPATCH {
            Some(VariantTag::ObjectHandle)
        } else {
            None
        }
    }

    pub fn from_type_code(code: u16) -> (tag: Option<VariantTag>)
        ensures
            tag == Self::spec_from_type_code(code),
    {
        if code == VT_EMPTY {
            Some(VariantTag::Empty)
        } else if code == VT_I4 {
            Some(VariantTag::Int32)
        } else if code == VT_R8 {
            Some(VariantTag::Float64)
        } else if code == VT_BSTR {
            Some(VariantTag::String)
        } else if code == VT_DISPATCH {
            Some(VariantTag::ObjectHandle)
        } else {
            None
        }
    }
}

/// What a [`SafeVariant`] holds, as a mathematical value. A 64-bit float is
/// its bit pattern; an object handle is the number that identifies the
/// server object, 0 for none.
pub enum VariantValue {
    Empty,
    Int32(i32),
    Float64(u64),
    Text(Seq<char>),
    Object(u64),
}

impl VariantValue {
    pub open spec fn tag(self) -> VariantTag {
        match self {
            VariantValue::Empty => VariantTag::Empty,
            VariantValue::Int32(_) => VariantTag::Int32,
            VariantValue::Float64(_) => VariantTag::Float64,
            VariantValue::Text(_) => VariantTag::String,
            VariantValue::Object(_) => VariantTag::ObjectHandle,
        }
    }
}

/// A decode asked for one tag and the value holds another.
#[derive(Debug, Clone, Copy, PartialEq, Eq, Structural)]
pub struct TypeMismatch {
    pub expected: VariantTag,
    pub found: VariantTag,
}

/// Why a value gives no usable object handle.
#[derive(Debug, Clone, Copy, PartialEq, Eq, Structural)]
pub enum HandleError {
    /// The value holds another tag.
    NotAnObject { found: VariantTag },
    /// The value holds the object tag with no object behind it.
    NullObject,
}

/// The tagged value exchanged with the automation server. The payload can
/// only be read under the tag it was written with.
#[derive(Debug, PartialEq, Eq)]
pub enum SafeVariant {
    Empty,
    Int32(i32),
    Float64 { bits: u64 },
    String(String),
    ObjectHandle(u64),
}

impl View for SafeVariant {
    type V = VariantValue;

    open spec fn view(&self) -> VariantValue {
        match self {
            SafeVariant::Empty => VariantValue::Empty,
            SafeVariant::Int32(v) => VariantValue::Int32(*v),
            SafeVariant::Float64 { bits } => VariantValue::Float64(*bits),
            SafeVariant::String(s) => VariantValue::Text(s@),
            SafeVariant::ObjectHandle(h) => VariantValue::Object(*h),
        }
    }
}

impl Clone for SafeVariant {
    /// A copy with a buffer of its own.
    fn clone(&self) -> (copy: Self)
        ensures
            copy@ == self@,
    {
        match self {
            SafeVariant::Empty => SafeVariant::Empty,
            SafeVariant::Int32(v) => SafeVariant::Int32(*v),
            SafeVariant::Float64 { bits } => SafeVariant::Float64 { bits: *bits },
            SafeVariant::String(s) => SafeVariant::String(s.clone()),
            SafeVariant::ObjectHandle(h) => SafeVariant::ObjectHandle(*h),
        }
    }
}

/// The flat record a value is marshaled into: a type code and one slot per
/// payload kind. Only the slot that the type code names carries meaning.
#[derive(Debug, PartialEq, Eq)]
pub struct WinVariant {
    pub vt: u16,
    pub int_value: i32,
    pub float_bits: u64,
    /// The string slot; `None` is the null string.
    pub text: Option<String>,
    pub object: u64,
}

/// A [`WinVariant`] as a mathematical value.
pub struct WinVariantView {
    pub vt: u16,
    pub int_value: i32,
    pub float_bits: u64,
    pub text: Option<Seq<char>>,
    pub object: u64,
}

impl View for WinVariant {
    type V = WinVariantView;

    open spec fn view(&self) -> WinVariantView {
        WinVariantView {
            vt: self.vt,
            int_value: self.int_value,
            float_bits: self.float_bits,
            text: match self.text {
                Some(s) => Some(s@),
                None => None,
            },
            object: self.object,
        }
    }
}

/// The record that `value` is marshaled into: the tag's type code, the
/// payload in its slot, every other slot zero or null.
pub open spec fn encode(value: VariantValue) -> WinVariantView {
    WinVariantView {
        vt: value.tag().spec_type_code(),
        int_value: match value {
            VariantValue::Int32(v) => v,
            _ => 0i32,
        },
        float_bits: match value {
            VariantValue::Float64(bits) => bits,
            _ => 0u64,
        },
        text: match value {
            VariantValue::Text(s) => Some(s),
            _ => None,
        },
        object: match value {
            VariantValue::Object(h) => h,
            _ => 0u64,
        },
    }
}

/// The value that a record stands for: the slot that its type code names,
/// a null string read as the empty string. `None` when the type code is
/// none of the five.
pub open spec fn decode(record: WinVariantView) -> Option<VariantValue> {
    match VariantTag::spec_from_type_code(record.vt) {
        Some(VariantTag::Empty) => Some(VariantValue::Empty),
        Some(VariantTag::Int32) => Some(VariantValue::Int32(record.int_value)),
        Some(VariantTag::Float64) => Some(VariantValue::Float64(record.float_bits)),
        Some(VariantTag::String) => Some(
            VariantValue::Text(
                match record.text {
                    Some(s) => s,
                    None => Seq::<char>::empty(),
                },
            ),
        ),
        Some(VariantTag::ObjectHandle) => Some(VariantValue::Object(record.object)),
        None => None,
    }
}

/// Decoding what was encoded gives the value back, whatever its tag:
/// every integer, every float bit pattern, every string (the empty one
/// too), every handle.
pub proof fn lemma_decode_encode(value: VariantValue)
    ensures
        decode(encode(value)) == Some(value),
{
}

/// The type code of an encoded value is that of its tag, and no two tags
/// share a type code.
pub proof fn lemma_type_code_round_trip(tag: VariantTag)
    ensures
        VariantTag::spec_from_type_code(tag.spec_type_code()) == Some(tag),
{
}

impl SafeVariant {
    /// The empty value.
    pub fn new() -> (v: Self)
        ensures
            v@ == VariantValue::Empty,
    {
        SafeVariant::Empty
    }

    pub fn from_i32(value: i32) -> (v: Self)
        ensures
            v@ == VariantValue::Int32(value),
    {
        SafeVariant::Int32(value)
    }

    /// A 64-bit float, given by its bit pattern.
    pub fn from_f64(bits: u64) -> (v: Self)
        ensures
            v@ == VariantValue::Float64(bits),
    {
        SafeVariant::Float64 { bits }
    }

    /// A string value that owns a fresh copy of `s`.
    pub fn from_string(s: &str) -> (v: Self)
        ensures
            v@ == VariantValue::Text(s@),
    {
        SafeVariant::String(s.to_owned())
    }

    /// A handle to a server object, or the empty value for no object.
    pub fn from_dispatch(dispatch: Option<u64>) -> (v: Self)
        ensures
            v@ == match dispatch {
                Some(h) => VariantValue::Object(h),
                None => VariantValue::Empty,
            },
    {
        match dispatch {
            Some(h) => SafeVariant::ObjectHandle(h),
            None => SafeVariant::Empty,
        }
    }

    pub fn tag(&self) -> (t: VariantTag)
        ensures
            t == self@.tag(),
    {
        match self {
            SafeVariant::Empty => VariantTag::Empty,
            SafeVariant::Int32(_) => VariantTag::Int32,
            SafeVariant::Float64 { .. } => VariantTag::Float64,
            SafeVariant::String(_) => VariantTag::String,
            SafeVariant::ObjectHandle(_) => VariantTag::ObjectHandle,
        }
    }

    /// The integer, if that is what the value holds.
    pub fn to_i32(&self) -> (r: Option<i32>)
        ensures
            r == match self@ {
                VariantValue::Int32(v) => Some(v),
                _ => None,
            },
    {
        match self {
            SafeVariant::Int32(v) => Some(*v),
            _ => None,
        }
    }

    /// The float's bit pattern, if a float is what the value holds.
    pub fn to_f64(&self) -> (r: Option<u64>)
        ensures
            r == match self@ {
                VariantValue::Float64(bits) => Some(bits),
                _ => None,
            },
    {
        match self {
            SafeVariant::Float64 { bits } => Some(*bits),
            _ => None,
        }
    }

    /// A copy of the string, if a string is what the value holds.
    pub fn to_string(&self) -> (r: Option<String>)
        ensures
            match self@ {
                VariantValue::Text(s) => r is Some && r->0@ == s,
                _ => r is None,
            },
    {
        match self {
            SafeVariant::String(s) => Some(s.clone()),
            _ => None,
        }
    }

    /// The object handle, if the value holds one that is not null.
    pub fn to_dispatch(&self) -> (r: Option<u64>)
        ensures
            r == match self@ {
                VariantValue::Object(h) => if h != 0 {
                    Some(h)
                } else {
                    None
                },
                _ => None,
            },
    {
        match self {
            SafeVariant::ObjectHandle(h) => if *h != 0 {
                Some(*h)
            } else {
                None
            },
            _ => None,
        }
    }

    /// The object handle, or the reason there is none.
    pub fn as_dispatch(&self) -> (r: Result<u64, HandleError>)
        ensures
            r == match self@ {
                VariantValue::Object(h) => if h != 0 {
                    Ok::<u64, HandleError>(h)
                } else {
                    Err(HandleError::NullObject)
                },
                other => Err(HandleError::NotAnObject { found: other.tag() }),
            },
    {
        match self {
            SafeVariant::ObjectHandle(h) => if *h != 0 {
                Ok(*h)
            } else {
                Err(HandleError::NullObject)
            },
            _ => Err(HandleError::NotAnObject { found: self.tag() }),
        }
    }

    /// The integer, or a mismatch that names both tags. Nothing is coerced.
    pub fn decode_i32(&self) -> (r: Result<i32, TypeMismatch>)
        ensures
            r == match self@ {
                VariantValue::Int32(v) => Ok::<i32, TypeMismatch>(v),
                other => Err(TypeMismatch { expected: VariantTag::Int32, found: other.tag() }),
            },
    {
        match self {
            SafeVariant::Int32(v) => Ok(*v),
            _ => Err(TypeMismatch { expected: VariantTag::Int32, found: self.tag() }),
        }
    }

    /// The float's bit pattern, or a mismatch that names both tags.
    pub fn decode_f64(&self) -> (r: Result<u64, TypeMismatch>)
        ensures
            r == match self@ {
                VariantValue::Float64(bits) => Ok::<u64, TypeMismatch>(bits),
                other => Err(TypeMismatch { expected: VariantTag::Float64, found: other.tag() }),
            },
    {
        match self {
            SafeVariant::Float64 { bits } => Ok(*bits),
            _ => Err(TypeMismatch { expected: VariantTag::Float64, found: self.tag() }),
        }
    }

    /// A copy of the string, or a mismatch that names both tags.
    pub fn decode_string(&self) -> (r: Result<String, TypeMismatch>)
        ensures
            match self@ {
                VariantValue::Text(s) => r is Ok && r->Ok_0@ == s,
                other => r == Err::<String, TypeMismatch>(
                    TypeMismatch { expected: VariantTag::String, found: other.tag() },
                ),
            },
    {
        match self {
            SafeVariant::String(s) => Ok(s.clone()),
            _ => Err(TypeMismatch { expected: VariantTag::String, found: self.tag() }),
        }
    }

    /// Marshals the value into a fresh record.
    pub fn to_winvariant(&self) -> (record: WinVariant)
        ensures
            record@ == encode(self@),
    {
        let mut record = WinVariant {
            vt: self.tag().type_code(),
            int_value: 0,
            float_bits: 0,
            text: None,
            object: 0,
        };
        match self {
            SafeVariant::Empty => {},
            SafeVariant::Int32(v) => {
                record.int_value = *v;
            },
            SafeVariant::Float64 { bits } => {
                record.float_bits = *bits;
            },
            SafeVariant::String(s) => {
                record.text = Some(s.clone());
            },
            SafeVariant::ObjectHandle(h) => {
                record.object = *h;
            },
        }
        record
    }

    /// Reads a record under its own type code. `None` when the type code
    /// is none of the five; no other slot is ever consulted.
    pub fn from_winvariant(win: &WinVariant) -> (r: Option<Self>)
        ensures
            match decode(win@) {
                Some(value) => r is Some && r->0@ == value,
                None => r is None,
            },
    {
        match VariantTag::from_type_code(win.vt) {
            Some(VariantTag::Empty) => Some(SafeVariant::Empty),
            Some(VariantTag::Int32) => Some(SafeVariant::Int32(win.int_value)),
            Some(VariantTag::Float64) => Some(SafeVariant::Float64 { bits: win.float_bits }),
            Some(VariantTag::String) => match &win.text {
                Some(s) => Some(SafeVariant::String(s.clone())),
                None => Some(SafeVariant::String(String::new())),
            },
            Some(VariantTag::ObjectHandle) => Some(SafeVariant::ObjectHandle(win.object)),
            None => None,
        }
    }
}

impl Default for SafeVariant {
    fn default() -> (v: Self)
        ensures
            v@ == VariantValue::Empty,
    {
        SafeVariant::Empty
    }
}

/// The string in `variant`, the empty string when it holds anything else.
pub fn variant_to_string(variant: &SafeVariant) -> (s: String)
    ensures
        s@ == match variant@ {
            VariantValue::Text(t) => t,
            _ => Seq::<char>::empty(),
        },
{
    match variant.to_string() {
        Some(s) => s,
        None => String::new(),
    }
}

/// The integer in `variant`, 0 when it holds anything else.
pub fn variant_to_i32(variant: &SafeVariant) -> (v: i32)
    ensures
        v == match variant@ {
            VariantValue::Int32(i) => i,
            _ => 0i32,
        },
{
    match variant.to_i32() {
        Some(v) => v,
        None => 0,
    }
}

/// The float bit pattern in `variant`, that of 0.0 when it holds anything
/// else.
pub fn variant_to_f64(variant: &SafeVariant) -> (bits: u64)
    ensures
        bits == match variant@ {
            VariantValue::Float64(b) => b,
            _ => 0u64,
        },
{
    match variant.to_f64() {
        Some(bits) => bits,
        None => 0,
    }
}

/// The object handle in `variant`, if it holds one that is not null.
pub fn variant_to_dispatch(variant: &SafeVariant) -> (r: Option<u64>)
    ensures
        r == match variant@ {
            VariantValue::Object(h) => if h != 0 {
                Some(h)
            } else {
                None
            },
            _ => None,
        },
{
    variant.to_dispatch()
}

/// An integer value.
pub fn create_variant_i4(value: i32) -> (v: SafeVariant)
    ensures
        v@ == VariantValue::Int32(value),
{
    SafeVariant::from_i32(value)
}

/// A string value with a buffer of its own.
pub fn create_bstr_variant(s: &str) -> (v: SafeVariant)
    ensures
        v@ == VariantValue::Text(s@),
{
    SafeVariant::from_string(s)
}

/// A value that holds the handle `dispatch`.
pub fn create_dispatch_variant(dispatch: u64) -> (v: SafeVariant)
    ensures
        v@ == VariantValue::Object(dispatch),
{
    SafeVariant::from_dispatch(Some(dispatch))
}

} // verus!
