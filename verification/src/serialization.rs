//! The tagged values that cross the wire, and the tags that announce them.

use vstd::prelude::*;

use crate::err::UnexpectedGenericType;
use crate::protocol::DataToken;

verus! {

/// The one-byte tag that announces the type of a value on the wire.
#[derive(Copy, Clone, Debug, PartialEq, Eq, Structural)]
pub enum SerializedType {
    Su8,
    Si8,
    Su16,
    Si16,
    Su32,
    Si32,
    Su64,
    Si64,
    Sf32,
    Sf64,
    Susize,
    Sisize,
    Sbool,
    Sstring,
    Sbytes,
    Token,
    Marker,
}

impl SerializedType {
    /// The byte that stands for this tag on the wire: tags count up from 0 in
    /// the order in which they are declared.
    pub open spec fn byte(self) -> u8 {
        match self {
            SerializedType::Su8 => 0,
            SerializedType::Si8 => 1,
            SerializedType::Su16 => 2,
            SerializedType::Si16 => 3,
            SerializedType::Su32 => 4,
            SerializedType::Si32 => 5,
            SerializedType::Su64 => 6,
            SerializedType::Si64 => 7,
            SerializedType::Sf32 => 8,
            SerializedType::Sf64 => 9,
            SerializedType::Susize => 10,
            SerializedType::Sisize => 11,
            SerializedType::Sbool => 12,
            SerializedType::Sstring => 13,
            SerializedType::Sbytes => 14,
            SerializedType::Token => 15,
            SerializedType::Marker => 16,
        }
    }

    /// The tag that a byte stands for, if any.
    pub open spec fn of_byte(b: u8) -> Option<SerializedType> {
        if b == 0 {
            Some(SerializedType::Su8)
        } else if b == 1 {
            Some(SerializedType::Si8)
        } else if b == 2 {
            Some(SerializedType::Su16)
        } else if b == 3 {
            Some(SerializedType::Si16)
        } else if b == 4 {
            Some(SerializedType::Su32)
        } else if b == 5 {
            Some(SerializedType::Si32)
        } else if b == 6 {
            Some(SerializedType::Su64)
        } else if b == 7 {
            Some(SerializedType::Si64)
        } else if b == 8 {
            Some(SerializedType::Sf32)
        } else if b == 9 {
            Some(SerializedType::Sf64)
        } else if b == 10 {
            Some(SerializedType::Susize)
        } else if b == 11 {
            Some(SerializedType::Sisize)
        } else if b == 12 {
            Some(SerializedType::Sbool)
        } else if b == 13 {
            Some(SerializedType::Sstring)
        } else if b == 14 {
            Some(SerializedType::Sbytes)
        } else if b == 15 {
            Some(SerializedType::Token)
        } else if b == 16 {
            Some(SerializedType::Marker)
        } else {
            None
        }
    }

    /// The byte of this tag.
    pub fn to_u8(self) -> (b: u8)
        ensures
            b == self.byte(),
    {
        match self {
            SerializedType::Su8 => 0,
            SerializedType::Si8 => 1,
            SerializedType::Su16 => 2,
            SerializedType::Si16 => 3,
            SerializedType::Su32 => 4,
            SerializedType::Si32 => 5,
            SerializedType::Su64 => 6,
            SerializedType::Si64 => 7,
            SerializedType::Sf32 => 8,
            SerializedType::Sf64 => 9,
            SerializedType::Susize => 10,
            SerializedType::Sisize => 11,
            SerializedType::Sbool => 12,
            SerializedType::Sstring => 13,
            SerializedType::Sbytes => 14,
            SerializedType::Token => 15,
            SerializedType::Marker => 16,
        }
    }

    /// The tag of a byte, or the byte itself where it is no tag.
    pub fn try_from(b: u8) -> (r: Result<SerializedType, u8>)
        ensures
            r == match SerializedType::of_byte(b) {
                Some(t) => Ok::<SerializedType, u8>(t),
                None => Err::<SerializedType, u8>(b),
            },
    {
        match b {
            0 => Ok(SerializedType::Su8),
            1 => Ok(SerializedType::Si8),
            2 => Ok(SerializedType::Su16),
            3 => Ok(SerializedType::Si16),
            4 => Ok(SerializedType::Su32),
            5 => Ok(SerializedType::Si32),
            6 => Ok(SerializedType::Su64),
            7 => Ok(SerializedType::Si64),
            8 => Ok(SerializedType::Sf32),
            9 => Ok(SerializedType::Sf64),
            10 => Ok(SerializedType::Susize),
            11 => Ok(SerializedType::Sisize),
            12 => Ok(SerializedType::Sbool),
            13 => Ok(SerializedType::Sstring),
            14 => Ok(SerializedType::Sbytes),
            15 => Ok(SerializedType::Token),
            16 => Ok(SerializedType::Marker),
            _ => Err(b),
        }
    }
}

/// One value of the interchange format.
///
/// `ArrType` holds a byte string and `StrType` a text: borrowed when a value
/// is sent, owned when it was received. The two floating-point variants hold
/// the IEEE-754 bit pattern of the number, which is what travels.
#[derive(Copy, Clone, Debug, PartialEq, Eq)]
pub enum GenericValue<ArrType, StrType> {
    Vu8(u8),
    Vi8(i8),
    Vu16(u16),
    Vi16(i16),
    Vu32(u32),
    Vi32(i32),
    Vu64(u64),
    Vi64(i64),
    Vf32(u32),
    Vf64(u64),
    Vusize(usize),
    Visize(isize),
    Vbool(bool),
    Vstring(StrType),
    Vbytes(ArrType),
    Token(DataToken),
    Marker(u8),
}

/// A value that borrows its text and bytes: the form in which values are sent.
pub type GenericValueRef<'a> = GenericValue<&'a [u8], &'a str>;

/// A value that owns its text and bytes: the form in which values are received.
pub type GenericValueBoxed = GenericValue<Vec<u8>, String>;

impl<ArrType: View<V = Seq<u8>>, StrType: View<V = Seq<char>>> View for GenericValue<
    ArrType,
    StrType,
> {
    type V = GenericValue<Seq<u8>, Seq<char>>;

    /// The value with its text as characters and its byte string as bytes,
    /// whoever owns them.
    open spec fn view(&self) -> GenericValue<Seq<u8>, Seq<char>> {
        match *self {
            GenericValue::Vu8(v) => GenericValue::Vu8(v),
            GenericValue::Vi8(v) => GenericValue::Vi8(v),
            GenericValue::Vu16(v) => GenericValue::Vu16(v),
            GenericValue::Vi16(v) => GenericValue::Vi16(v),
            GenericValue::Vu32(v) => GenericValue::Vu32(v),
            GenericValue::Vi32(v) => GenericValue::Vi32(v),
            GenericValue::Vu64(v) => GenericValue::Vu64(v),
            GenericValue::Vi64(v) => GenericValue::Vi64(v),
            GenericValue::Vf32(v) => GenericValue::Vf32(v),
            GenericValue::Vf64(v) => GenericValue::Vf64(v),
            GenericValue::Vusize(v) => GenericValue::Vusize(v),
            GenericValue::Visize(v) => GenericValue::Visize(v),
            GenericValue::Vbool(v) => GenericValue::Vbool(v),
            GenericValue::Vstring(v) => GenericValue::Vstring(v@),
            GenericValue::Vbytes(v) => GenericValue::Vbytes(v@),
            GenericValue::Token(v) => GenericValue::Token(v),
            GenericValue::Marker(v) => GenericValue::Marker(v),
        }
    }
}

impl<ArrType: View<V = Seq<u8>>, StrType: View<V = Seq<char>>> DeepView for GenericValue<
    ArrType,
    StrType,
> {
    type V = GenericValue<Seq<u8>, Seq<char>>;

    open spec fn deep_view(&self) -> GenericValue<Seq<u8>, Seq<char>> {
        self.view()
    }
}

impl<ArrType, StrType> GenericValue<ArrType, StrType> {
    /// The tag of this value's variant.
    pub open spec fn spec_type_of(&self) -> SerializedType {
        match *self {
            GenericValue::Vu8(_) => SerializedType::Su8,
            GenericValue::Vi8(_) => SerializedType::Si8,
            GenericValue::Vu16(_) => SerializedType::Su16,
            GenericValue::Vi16(_) => SerializedType::Si16,
            GenericValue::Vu32(_) => SerializedType::Su32,
            GenericValue::Vi32(_) => SerializedType::Si32,
            GenericValue::Vu64(_) => SerializedType::Su64,
            GenericValue::Vi64(_) => SerializedType::Si64,
            GenericValue::Vf32(_) => SerializedType::Sf32,
            GenericValue::Vf64(_) => SerializedType::Sf64,
            GenericValue::Vusize(_) => SerializedType::Susize,
            GenericValue::Visize(_) => SerializedType::Sisize,
            GenericValue::Vbool(_) => SerializedType::Sbool,
            GenericValue::Vstring(_) => SerializedType::Sstring,
            GenericValue::Vbytes(_) => SerializedType::Sbytes,
            GenericValue::Token(_) => SerializedType::Token,
            GenericValue::Marker(_) => SerializedType::Marker,
        }
    }

    /// The tag of this value's variant, which can be asked at run time.
    #[verifier::when_used_as_spec(spec_type_of)]
    pub fn type_of(&self) -> (t: SerializedType)
        ensures
            t == self.spec_type_of(),
    {
        match self {
            GenericValue::Vu8(_) => SerializedType::Su8,
            GenericValue::Vi8(_) => SerializedType::Si8,
            GenericValue::Vu16(_) => SerializedType::Su16,
            GenericValue::Vi16(_) => SerializedType::Si16,
            GenericValue::Vu32(_) => SerializedType::Su32,
            GenericValue::Vi32(_) => SerializedType::Si32,
            GenericValue::Vu64(_) => SerializedType::Su64,
            GenericValue::Vi64(_) => SerializedType::Si64,
            GenericValue::Vf32(_) => SerializedType::Sf32,
            GenericValue::Vf64(_) => SerializedType::Sf64,
            GenericValue::Vusize(_) => SerializedType::Susize,
            GenericValue::Visize(_) => SerializedType::Sisize,
            GenericValue::Vbool(_) => SerializedType::Sbool,
            GenericValue::Vstring(_) => SerializedType::Sstring,
            GenericValue::Vbytes(_) => SerializedType::Sbytes,
            GenericValue::Token(_) => SerializedType::Token,
            GenericValue::Marker(_) => SerializedType::Marker,
        }
    }
}

impl<ArrType, StrType> GenericValue<ArrType, StrType> {
    /// What asking this value for the type `expected` reports where it holds
    /// another.
    pub open spec fn unexpected(&self, expected: SerializedType) -> UnexpectedGenericType {
        UnexpectedGenericType { expected_type: expected, actual_type: self.spec_type_of() }
    }

    /// This value as an unsigned 8-bit integer, or what it holds instead.
    pub fn expect_u8(&self) -> (r: Result<&u8, UnexpectedGenericType>)
        ensures
            match *self {
                GenericValue::Vu8(v) => r == Ok::<&u8, UnexpectedGenericType>(&v),
                _ => r == Err::<&u8, UnexpectedGenericType>(
                    self.unexpected(SerializedType::Su8),
                ),
            },
    {
        match self {
            GenericValue::Vu8(v) => Ok(v),
            g => Err(
                UnexpectedGenericType {
                    expected_type: SerializedType::Su8,
                    actual_type: g.type_of(),
                },
            ),
        }
    }

    /// This value turned into an unsigned 8-bit integer, or what it holds instead.
    pub fn expect_u8_into(self) -> (r: Result<u8, UnexpectedGenericType>)
        ensures
            match self {
                GenericValue::Vu8(v) => r == Ok::<u8, UnexpectedGenericType>(v),
                _ => r == Err::<u8, UnexpectedGenericType>(self.unexpected(SerializedType::Su8)),
            },
    {
        match self {
            GenericValue::Vu8(v) => Ok(v),
            g => Err(
                UnexpectedGenericType {
                    expected_type: SerializedType::Su8,
                    actual_type: g.type_of(),
                },
            ),
        }
    }

    /// This value as a signed 8-bit integer, or what it holds instead.
    pub fn expect_i8(&self) -> (r: Result<&i8, UnexpectedGenericType>)
        ensures
            match *self {
                GenericValue::Vi8(v) => r == Ok::<&i8, UnexpectedGenericType>(&v),
                _ => r == Err::<&i8, UnexpectedGenericType>(
                    self.unexpected(SerializedType::Si8),
                ),
            },
    {
        match self {
            GenericValue::Vi8(v) => Ok(v),
            g => Err(
                UnexpectedGenericType {
                    expected_type: SerializedType::Si8,
                    actual_type: g.type_of(),
                },
            ),
        }
    }

    /// This value turned into a signed 8-bit integer, or what it holds instead.
    pub fn expect_i8_into(self) -> (r: Result<i8, UnexpectedGenericType>)
        ensures
            match self {
                GenericValue::Vi8(v) => r == Ok::<i8, UnexpectedGenericType>(v),
                _ => r == Err::<i8, UnexpectedGenericType>(self.unexpected(SerializedType::Si8)),
            },
    {
        match self {
            GenericValue::Vi8(v) => Ok(v),
            g => Err(
                UnexpectedGenericType {
                    expected_type: SerializedType::Si8,
                    actual_type: g.type_of(),
                },
            ),
        }
    }

    /// This value as an unsigned 16-bit integer, or what it holds instead.
    pub fn expect_u16(&self) -> (r: Result<&u16, UnexpectedGenericType>)
        ensures
            match *self {
                GenericValue::Vu16(v) => r == Ok::<&u16, UnexpectedGenericType>(&v),
                _ => r == Err::<&u16, UnexpectedGenericType>(
                    self.unexpected(SerializedType::Su16),
                ),
            },
    {
        match self {
            GenericValue::Vu16(v) => Ok(v),
            g => Err(
                UnexpectedGenericType {
                    expected_type: SerializedType::Su16,
                    actual_type: g.type_of(),
                },
            ),
        }
    }

    /// This value turned into an unsigned 16-bit integer, or what it holds instead.
    pub fn expect_u16_into(self) -> (r: Result<u16, UnexpectedGenericType>)
        ensures
            match self {
                GenericValue::Vu16(v) => r == Ok::<u16, UnexpectedGenericType>(v),
                _ => r == Err::<u16, UnexpectedGenericType>(self.unexpected(SerializedType::Su16)),
            },
    {
        match self {
            GenericValue::Vu16(v) => Ok(v),
            g => Err(
                UnexpectedGenericType {
                    expected_type: SerializedType::Su16,
                    actual_type: g.type_of(),
                },
            ),
        }
    }

    /// This value as a signed 16-bit integer, or what it holds instead.
    pub fn expect_i16(&self) -> (r: Result<&i16, UnexpectedGenericType>)
        ensures
            match *self {
                GenericValue::Vi16(v) => r == Ok::<&i16, UnexpectedGenericType>(&v),
                _ => r == Err::<&i16, UnexpectedGenericType>(
                    self.unexpected(SerializedType::Si16),
                ),
            },
    {
        match self {
            GenericValue::Vi16(v) => Ok(v),
            g => Err(
                UnexpectedGenericType {
                    expected_type: SerializedType::Si16,
                    actual_type: g.type_of(),
                },
            ),
        }
    }

    /// This value turned into a signed 16-bit integer, or what it holds instead.
    pub fn expect_i16_into(self) -> (r: Result<i16, UnexpectedGenericType>)
        ensures
            match self {
                GenericValue::Vi16(v) => r == Ok::<i16, UnexpectedGenericType>(v),
                _ => r == Err::<i16, UnexpectedGenericType>(self.unexpected(SerializedType::Si16)),
            },
    {
        match self {
            GenericValue::Vi16(v) => Ok(v),
            g => Err(
                UnexpectedGenericType {
                    expected_type: SerializedType::Si16,
                    actual_type: g.type_of(),
                },
            ),
        }
    }

    /// This value as an unsigned 32-bit integer, or what it holds instead.
    pub fn expect_u32(&self) -> (r: Result<&u32, UnexpectedGenericType>)
        ensures
            match *self {
                GenericValue::Vu32(v) => r == Ok::<&u32, UnexpectedGenericType>(&v),
                _ => r == Err::<&u32, UnexpectedGenericType>(
                    self.unexpected(SerializedType::Su32),
                ),
            },
    {
        match self {
            GenericValue::Vu32(v) => Ok(v),
            g => Err(
                UnexpectedGenericType {
                    expected_type: SerializedType::Su32,
                    actual_type: g.type_of(),
                },
            ),
        }
    }

    /// This value turned into an unsigned 32-bit integer, or what it holds instead.
    pub fn expect_u32_into(self) -> (r: Result<u32, UnexpectedGenericType>)
        ensures
            match self {
                GenericValue::Vu32(v) => r == Ok::<u32, UnexpectedGenericType>(v),
                _ => r == Err::<u32, UnexpectedGenericType>(self.unexpected(SerializedType::Su32)),
            },
    {
        match self {
            GenericValue::Vu32(v) => Ok(v),
            g => Err(
                UnexpectedGenericType {
                    expected_type: SerializedType::Su32,
                    actual_type: g.type_of(),
                },
            ),
        }
    }

    /// This value as a signed 32-bit integer, or what it holds instead.
    pub fn expect_i32(&self) -> (r: Result<&i32, UnexpectedGenericType>)
        ensures
            match *self {
                GenericValue::Vi32(v) => r == Ok::<&i32, UnexpectedGenericType>(&v),
                _ => r == Err::<&i32, UnexpectedGenericType>(
                    self.unexpected(SerializedType::Si32),
                ),
            },
    {
        match self {
            GenericValue::Vi32(v) => Ok(v),
            g => Err(
                UnexpectedGenericType {
                    expected_type: SerializedType::Si32,
                    actual_type: g.type_of(),
                },
            ),
        }
    }

    /// This value turned into a signed 32-bit integer, or what it holds instead.
    pub fn expect_i32_into(self) -> (r: Result<i32, UnexpectedGenericType>)
        ensures
            match self {
                GenericValue::Vi32(v) => r == Ok::<i32, UnexpectedGenericType>(v),
                _ => r == Err::<i32, UnexpectedGenericType>(self.unexpected(SerializedType::Si32)),
            },
    {
        match self {
            GenericValue::Vi32(v) => Ok(v),
            g => Err(
                UnexpectedGenericType {
                    expected_type: SerializedType::Si32,
                    actual_type: g.type_of(),
                },
            ),
        }
    }

    /// This value as an unsigned 64-bit integer, or what it holds instead.
    pub fn expect_u64(&self) -> (r: Result<&u64, UnexpectedGenericType>)
        ensures
            match *self {
                GenericValue::Vu64(v) => r == Ok::<&u64, UnexpectedGenericType>(&v),
                _ => r == Err::<&u64, UnexpectedGenericType>(
                    self.unexpected(SerializedType::Su64),
                ),
            },
    {
        match self {
            GenericValue::Vu64(v) => Ok(v),
            g => Err(
                UnexpectedGenericType {
                    expected_type: SerializedType::Su64,
                    actual_type: g.type_of(),
                },
            ),
        }
    }

    /// This value turned into an unsigned 64-bit integer, or what it holds instead.
    pub fn expect_u64_into(self) -> (r: Result<u64, UnexpectedGenericType>)
        ensures
            match self {
                GenericValue::Vu64(v) => r == Ok::<u64, UnexpectedGenericType>(v),
                _ => r == Err::<u64, UnexpectedGenericType>(self.unexpected(SerializedType::Su64)),
            },
    {
        match self {
            GenericValue::Vu64(v) => Ok(v),
            g => Err(
                UnexpectedGenericType {
                    expected_type: SerializedType::Su64,
                    actual_type: g.type_of(),
                },
            ),
        }
    }

    /// This value as a signed 64-bit integer, or what it holds instead.
    pub fn expect_i64(&self) -> (r: Result<&i64, UnexpectedGenericType>)
        ensures
            match *self {
                GenericValue::Vi64(v) => r == Ok::<&i64, UnexpectedGenericType>(&v),
                _ => r == Err::<&i64, UnexpectedGenericType>(
                    self.unexpected(SerializedType::Si64),
                ),
            },
    {
        match self {
            GenericValue::Vi64(v) => Ok(v),
            g => Err(
                UnexpectedGenericType {
                    expected_type: SerializedType::Si64,
                    actual_type: g.type_of(),
                },
            ),
        }
    }

    /// This value turned into a signed 64-bit integer, or what it holds instead.
    pub fn expect_i64_into(self) -> (r: Result<i64, UnexpectedGenericType>)
        ensures
            match self {
                GenericValue::Vi64(v) => r == Ok::<i64, UnexpectedGenericType>(v),
                _ => r == Err::<i64, UnexpectedGenericType>(self.unexpected(SerializedType::Si64)),
            },
    {
        match self {
            GenericValue::Vi64(v) => Ok(v),
            g => Err(
                UnexpectedGenericType {
                    expected_type: SerializedType::Si64,
                    actual_type: g.type_of(),
                },
            ),
        }
    }

    /// This value as the bit pattern of a 32-bit float, or what it holds instead.
    pub fn expect_f32(&self) -> (r: Result<&u32, UnexpectedGenericType>)
        ensures
            match *self {
                GenericValue::Vf32(v) => r == Ok::<&u32, UnexpectedGenericType>(&v),
                _ => r == Err::<&u32, UnexpectedGenericType>(
                    self.unexpected(SerializedType::Sf32),
                ),
            },
    {
        match self {
            GenericValue::Vf32(v) => Ok(v),
            g => Err(
                UnexpectedGenericType {
                    expected_type: SerializedType::Sf32,
                    actual_type: g.type_of(),
                },
            ),
        }
    }

    /// This value turned into the bit pattern of a 32-bit float, or what it holds instead.
    pub fn expect_f32_into(self) -> (r: Result<u32, UnexpectedGenericType>)
        ensures
            match self {
                GenericValue::Vf32(v) => r == Ok::<u32, UnexpectedGenericType>(v),
                _ => r == Err::<u32, UnexpectedGenericType>(self.unexpected(SerializedType::Sf32)),
            },
    {
        match self {
            GenericValue::Vf32(v) => Ok(v),
            g => Err(
                UnexpectedGenericType {
                    expected_type: SerializedType::Sf32,
                    actual_type: g.type_of(),
                },
            ),
        }
    }

    /// This value as the bit pattern of a 64-bit float, or what it holds instead.
    pub fn expect_f64(&self) -> (r: Result<&u64, UnexpectedGenericType>)
        ensures
            match *self {
                GenericValue::Vf64(v) => r == Ok::<&u64, UnexpectedGenericType>(&v),
                _ => r == Err::<&u64, UnexpectedGenericType>(
                    self.unexpected(SerializedType::Sf64),
                ),
            },
    {
        match self {
            GenericValue::Vf64(v) => Ok(v),
            g => Err(
                UnexpectedGenericType {
                    expected_type: SerializedType::Sf64,
                    actual_type: g.type_of(),
                },
            ),
        }
    }

    /// This value turned into the bit pattern of a 64-bit float, or what it holds instead.
    pub fn expect_f64_into(self) -> (r: Result<u64, UnexpectedGenericType>)
        ensures
            match self {
                GenericValue::Vf64(v) => r == Ok::<u64, UnexpectedGenericType>(v),
                _ => r == Err::<u64, UnexpectedGenericType>(self.unexpected(SerializedType::Sf64)),
            },
    {
        match self {
            GenericValue::Vf64(v) => Ok(v),
            g => Err(
                UnexpectedGenericType {
                    expected_type: SerializedType::Sf64,
                    actual_type: g.type_of(),
                },
            ),
        }
    }

    /// This value as an unsigned machine word, or what it holds instead.
    pub fn expect_usize(&self) -> (r: Result<&usize, UnexpectedGenericType>)
        ensures
            match *self {
                GenericValue::Vusize(v) => r == Ok::<&usize, UnexpectedGenericType>(&v),
                _ => r == Err::<&usize, UnexpectedGenericType>(
                    self.unexpected(SerializedType::Susize),
                ),
            },
    {
        match self {
            GenericValue::Vusize(v) => Ok(v),
            g => Err(
                UnexpectedGenericType {
                    expected_type: SerializedType::Susize,
                    actual_type: g.type_of(),
                },
            ),
        }
    }

    /// This value turned into an unsigned machine word, or what it holds instead.
    pub fn expect_usize_into(self) -> (r: Result<usize, UnexpectedGenericType>)
        ensures
            match self {
                GenericValue::Vusize(v) => r == Ok::<usize, UnexpectedGenericType>(v),
                _ => r == Err::<usize, UnexpectedGenericType>(self.unexpected(SerializedType::Susize)),
            },
    {
        match self {
            GenericValue::Vusize(v) => Ok(v),
            g => Err(
                UnexpectedGenericType {
                    expected_type: SerializedType::Susize,
                    actual_type: g.type_of(),
                },
            ),
        }
    }

    /// This value as a signed machine word, or what it holds instead.
    pub fn expect_isize(&self) -> (r: Result<&isize, UnexpectedGenericType>)
        ensures
            match *self {
                GenericValue::Visize(v) => r == Ok::<&isize, UnexpectedGenericType>(&v),
                _ => r == Err::<&isize, UnexpectedGenericType>(
                    self.unexpected(SerializedType::Sisize),
                ),
            },
    {
        match self {
            GenericValue::Visize(v) => Ok(v),
            g => Err(
                UnexpectedGenericType {
                    expected_type: SerializedType::Sisize,
                    actual_type: g.type_of(),
                },
            ),
        }
    }

    /// This value turned into a signed machine word, or what it holds instead.
    pub fn expect_isize_into(self) -> (r: Result<isize, UnexpectedGenericType>)
        ensures
            match self {
                GenericValue::Visize(v) => r == Ok::<isize, UnexpectedGenericType>(v),
                _ => r == Err::<isize, UnexpectedGenericType>(self.unexpected(SerializedType::Sisize)),
            },
    {
        match self {
            GenericValue::Visize(v) => Ok(v),
            g => Err(
                UnexpectedGenericType {
                    expected_type: SerializedType::Sisize,
                    actual_type: g.type_of(),
                },
            ),
        }
    }

    /// This value as a boolean, or what it holds instead.
    pub fn expect_bool(&self) -> (r: Result<&bool, UnexpectedGenericType>)
        ensures
            match *self {
                GenericValue::Vbool(v) => r == Ok::<&bool, UnexpectedGenericType>(&v),
                _ => r == Err::<&bool, UnexpectedGenericType>(
                    self.unexpected(SerializedType::Sbool),
                ),
            },
    {
        match self {
            GenericValue::Vbool(v) => Ok(v),
            g => Err(
                UnexpectedGenericType {
                    expected_type: SerializedType::Sbool,
                    actual_type: g.type_of(),
                },
            ),
        }
    }

    /// This value turned into a boolean, or what it holds instead.
    pub fn expect_bool_into(self) -> (r: Result<bool, UnexpectedGenericType>)
        ensures
            match self {
                GenericValue::Vbool(v) => r == Ok::<bool, UnexpectedGenericType>(v),
                _ => r == Err::<bool, UnexpectedGenericType>(self.unexpected(SerializedType::Sbool)),
            },
    {
        match self {
            GenericValue::Vbool(v) => Ok(v),
            g => Err(
                UnexpectedGenericType {
                    expected_type: SerializedType::Sbool,
                    actual_type: g.type_of(),
                },
            ),
        }
    }

    /// This value as a text, or what it holds instead.
    pub fn expect_string(&self) -> (r: Result<&StrType, UnexpectedGenericType>)
        ensures
            match *self {
                GenericValue::Vstring(v) => r == Ok::<&StrType, UnexpectedGenericType>(&v),
                _ => r == Err::<&StrType, UnexpectedGenericType>(
                    self.unexpected(SerializedType::Sstring),
                ),
            },
    {
        match self {
            GenericValue::Vstring(v) => Ok(v),
            g => Err(
                UnexpectedGenericType {
                    expected_type: SerializedType::Sstring,
                    actual_type: g.type_of(),
                },
            ),
        }
    }

    /// This value turned into a text, or what it holds instead.
    pub fn expect_string_into(self) -> (r: Result<StrType, UnexpectedGenericType>)
        ensures
            match self {
                GenericValue::Vstring(v) => r == Ok::<StrType, UnexpectedGenericType>(v),
                _ => r == Err::<StrType, UnexpectedGenericType>(self.unexpected(SerializedType::Sstring)),
            },
    {
        match self {
            GenericValue::Vstring(v) => Ok(v),
            g => Err(
                UnexpectedGenericType {
                    expected_type: SerializedType::Sstring,
                    actual_type: g.type_of(),
                },
            ),
        }
    }

    /// This value as a byte string, or what it holds instead.
    pub fn expect_bytes(&self) -> (r: Result<&ArrType, UnexpectedGenericType>)
        ensures
            match *self {
                GenericValue::Vbytes(v) => r == Ok::<&ArrType, UnexpectedGenericType>(&v),
                _ => r == Err::<&ArrType, UnexpectedGenericType>(
                    self.unexpected(SerializedType::Sbytes),
                ),
            },
    {
        match self {
            GenericValue::Vbytes(v) => Ok(v),
            g => Err(
                UnexpectedGenericType {
                    expected_type: SerializedType::Sbytes,
                    actual_type: g.type_of(),
                },
            ),
        }
    }

    /// This value turned into a byte string, or what it holds instead.
    pub fn expect_bytes_into(self) -> (r: Result<ArrType, UnexpectedGenericType>)
        ensures
            match self {
                GenericValue::Vbytes(v) => r == Ok::<ArrType, UnexpectedGenericType>(v),
                _ => r == Err::<ArrType, UnexpectedGenericType>(self.unexpected(SerializedType::Sbytes)),
            },
    {
        match self {
            GenericValue::Vbytes(v) => Ok(v),
            g => Err(
                UnexpectedGenericType {
                    expected_type: SerializedType::Sbytes,
                    actual_type: g.type_of(),
                },
            ),
        }
    }

    /// This value as a data token, or what it holds instead.
    pub fn expect_token(&self) -> (r: Result<&DataToken, UnexpectedGenericType>)
        ensures
            match *self {
                GenericValue::Token(v) => r == Ok::<&DataToken, UnexpectedGenericType>(&v),
                _ => r == Err::<&DataToken, UnexpectedGenericType>(
                    self.unexpected(SerializedType::Token),
                ),
            },
    {
        match self {
            GenericValue::Token(v) => Ok(v),
            g => Err(
                UnexpectedGenericType {
                    expected_type: SerializedType::Token,
                    actual_type: g.type_of(),
                },
            ),
        }
    }

    /// This value turned into a data token, or what it holds instead.
    pub fn expect_token_into(self) -> (r: Result<DataToken, UnexpectedGenericType>)
        ensures
            match self {
                GenericValue::Token(v) => r == Ok::<DataToken, UnexpectedGenericType>(v),
                _ => r == Err::<DataToken, UnexpectedGenericType>(self.unexpected(SerializedType::Token)),
            },
    {
        match self {
            GenericValue::Token(v) => Ok(v),
            g => Err(
                UnexpectedGenericType {
                    expected_type: SerializedType::Token,
                    actual_type: g.type_of(),
                },
            ),
        }
    }

    /// This value as a marker, or what it holds instead.
    pub fn expect_marker(&self) -> (r: Result<&u8, UnexpectedGenericType>)
        ensures
            match *self {
                GenericValue::Marker(v) => r == Ok::<&u8, UnexpectedGenericType>(&v),
                _ => r == Err::<&u8, UnexpectedGenericType>(
                    self.unexpected(SerializedType::Marker),
                ),
            },
    {
        match self {
            GenericValue::Marker(v) => Ok(v),
            g => Err(
                UnexpectedGenericType {
                    expected_type: SerializedType::Marker,
                    actual_type: g.type_of(),
                },
            ),
        }
    }

    /// This value turned into a marker, or what it holds instead.
    pub fn expect_marker_into(self) -> (r: Result<u8, UnexpectedGenericType>)
        ensures
            match self {
                GenericValue::Marker(v) => r == Ok::<u8, UnexpectedGenericType>(v),
                _ => r == Err::<u8, UnexpectedGenericType>(self.unexpected(SerializedType::Marker)),
            },
    {
        match self {
            GenericValue::Marker(v) => Ok(v),
            g => Err(
                UnexpectedGenericType {
                    expected_type: SerializedType::Marker,
                    actual_type: g.type_of(),
                },
            ),
        }
    }
}

impl<'a> From<&'a GenericValueBoxed> for GenericValueRef<'a> {
    /// Borrows a value that was received, so that it can be sent on.
    fn from(boxed: &'a GenericValueBoxed) -> (r: Self)
        ensures
            r@ == boxed@,
    {
        match boxed {
            GenericValue::Vu8(v) => GenericValue::Vu8(*v),
            GenericValue::Vi8(v) => GenericValue::Vi8(*v),
            GenericValue::Vu16(v) => GenericValue::Vu16(*v),
            GenericValue::Vi16(v) => GenericValue::Vi16(*v),
            GenericValue::Vu32(v) => GenericValue::Vu32(*v),
            GenericValue::Vi32(v) => GenericValue::Vi32(*v),
            GenericValue::Vu64(v) => GenericValue::Vu64(*v),
            GenericValue::Vi64(v) => GenericValue::Vi64(*v),
            GenericValue::Vf32(v) => GenericValue::Vf32(*v),
            GenericValue::Vf64(v) => GenericValue::Vf64(*v),
            GenericValue::Vusize(v) => GenericValue::Vusize(*v),
            GenericValue::Visize(v) => GenericValue::Visize(*v),
            GenericValue::Vbool(v) => GenericValue::Vbool(*v),
            GenericValue::Vstring(v) => GenericValue::Vstring(v.as_str()),
            GenericValue::Vbytes(v) => GenericValue::Vbytes(v.as_slice()),
            GenericValue::Token(v) => GenericValue::Token(*v),
            GenericValue::Marker(v) => GenericValue::Marker(*v),
        }
    }
}

/// A borrowed text has no constructor in specifications, so this conversion
/// cannot be written down as a term: what it does is stated on `from` itself,
/// through the views of the two values.
impl<'a> vstd::std_specs::convert::FromSpecImpl<&'a GenericValueBoxed> for GenericValueRef<'a> {
    open spec fn obeys_from_spec() -> bool {
        false
    }

    open spec fn from_spec(boxed: &'a GenericValueBoxed) -> Self {
        arbitrary()
    }
}

impl<ArrType, StrType> From<u8> for GenericValue<ArrType, StrType> {
    fn from(value: u8) -> (r: Self) {
        GenericValue::Vu8(value)
    }
}

impl<ArrType, StrType> vstd::std_specs::convert::FromSpecImpl<u8> for GenericValue<ArrType, StrType> {
    open spec fn obeys_from_spec() -> bool {
        true
    }

    open spec fn from_spec(value: u8) -> Self {
        GenericValue::Vu8(value)
    }
}

impl<ArrType, StrType> From<i8> for GenericValue<ArrType, StrType> {
    fn from(value: i8) -> (r: Self) {
        GenericValue::Vi8(value)
    }
}

impl<ArrType, StrType> vstd::std_specs::convert::FromSpecImpl<i8> for GenericValue<ArrType, StrType> {
    open spec fn obeys_from_spec() -> bool {
        true
    }

    open spec fn from_spec(value: i8) -> Self {
        GenericValue::Vi8(value)
    }
}

impl<ArrType, StrType> From<u16> for GenericValue<ArrType, StrType> {
    fn from(value: u16) -> (r: Self) {
        GenericValue::Vu16(value)
    }
}

impl<ArrType, StrType> vstd::std_specs::convert::FromSpecImpl<u16> for GenericValue<ArrType, StrType> {
    open spec fn obeys_from_spec() -> bool {
        true
    }

    open spec fn from_spec(value: u16) -> Self {
        GenericValue::Vu16(value)
    }
}

impl<ArrType, StrType> From<i16> for GenericValue<ArrType, StrType> {
    fn from(value: i16) -> (r: Self) {
        GenericValue::Vi16(value)
    }
}

impl<ArrType, StrType> vstd::std_specs::convert::FromSpecImpl<i16> for GenericValue<ArrType, StrType> {
    open spec fn obeys_from_spec() -> bool {
        true
    }

    open spec fn from_spec(value: i16) -> Self {
        GenericValue::Vi16(value)
    }
}

impl<ArrType, StrType> From<u32> for GenericValue<ArrType, StrType> {
    fn from(value: u32) -> (r: Self) {
        GenericValue::Vu32(value)
    }
}

impl<ArrType, StrType> vstd::std_specs::convert::FromSpecImpl<u32> for GenericValue<ArrType, StrType> {
    open spec fn obeys_from_spec() -> bool {
        true
    }

    open spec fn from_spec(value: u32) -> Self {
        GenericValue::Vu32(value)
    }
}

impl<ArrType, StrType> From<i32> for GenericValue<ArrType, StrType> {
    fn from(value: i32) -> (r: Self) {
        GenericValue::Vi32(value)
    }
}

impl<ArrType, StrType> vstd::std_specs::convert::FromSpecImpl<i32> for GenericValue<ArrType, StrType> {
    open spec fn obeys_from_spec() -> bool {
        true
    }

    open spec fn from_spec(value: i32) -> Self {
        GenericValue::Vi32(value)
    }
}

impl<ArrType, StrType> From<u64> for GenericValue<ArrType, StrType> {
    fn from(value: u64) -> (r: Self) {
        GenericValue::Vu64(value)
    }
}

impl<ArrType, StrType> vstd::std_specs::convert::FromSpecImpl<u64> for GenericValue<ArrType, StrType> {
    open spec fn obeys_from_spec() -> bool {
        true
    }

    open spec fn from_spec(value: u64) -> Self {
        GenericValue::Vu64(value)
    }
}

impl<ArrType, StrType> From<i64> for GenericValue<ArrType, StrType> {
    fn from(value: i64) -> (r: Self) {
        GenericValue::Vi64(value)
    }
}

impl<ArrType, StrType> vstd::std_specs::convert::FromSpecImpl<i64> for GenericValue<ArrType, StrType> {
    open spec fn obeys_from_spec() -> bool {
        true
    }

    open spec fn from_spec(value: i64) -> Self {
        GenericValue::Vi64(value)
    }
}

impl<ArrType, StrType> From<usize> for GenericValue<ArrType, StrType> {
    fn from(value: usize) -> (r: Self) {
        GenericValue::Vusize(value)
    }
}

impl<ArrType, StrType> vstd::std_specs::convert::FromSpecImpl<usize> for GenericValue<ArrType, StrType> {
    open spec fn obeys_from_spec() -> bool {
        true
    }

    open spec fn from_spec(value: usize) -> Self {
        GenericValue::Vusize(value)
    }
}

impl<ArrType, StrType> From<isize> for GenericValue<ArrType, StrType> {
    fn from(value: isize) -> (r: Self) {
        GenericValue::Visize(value)
    }
}

impl<ArrType, StrType> vstd::std_specs::convert::FromSpecImpl<isize> for GenericValue<ArrType, StrType> {
    open spec fn obeys_from_spec() -> bool {
        true
    }

    open spec fn from_spec(value: isize) -> Self {
        GenericValue::Visize(value)
    }
}

impl<ArrType, StrType> From<bool> for GenericValue<ArrType, StrType> {
    fn from(value: bool) -> (r: Self) {
        GenericValue::Vbool(value)
    }
}

impl<ArrType, StrType> vstd::std_specs::convert::FromSpecImpl<bool> for GenericValue<ArrType, StrType> {
    open spec fn obeys_from_spec() -> bool {
        true
    }

    open spec fn from_spec(value: bool) -> Self {
        GenericValue::Vbool(value)
    }
}

impl<ArrType, StrType> From<DataToken> for GenericValue<ArrType, StrType> {
    fn from(value: DataToken) -> (r: Self) {
        GenericValue::Token(value)
    }
}

impl<ArrType, StrType> vstd::std_specs::convert::FromSpecImpl<DataToken> for GenericValue<ArrType, StrType> {
    open spec fn obeys_from_spec() -> bool {
        true
    }

    open spec fn from_spec(value: DataToken) -> Self {
        GenericValue::Token(value)
    }
}

impl<'a, StrType> From<&'a [u8]> for GenericValue<&'a [u8], StrType> {
    fn from(value: &'a [u8]) -> (r: Self) {
        GenericValue::Vbytes(value)
    }
}

impl<'a, StrType> vstd::std_specs::convert::FromSpecImpl<&'a [u8]> for GenericValue<&'a [u8], StrType> {
    open spec fn obeys_from_spec() -> bool {
        true
    }

    open spec fn from_spec(value: &'a [u8]) -> Self {
        GenericValue::Vbytes(value)
    }
}

impl<StrType> From<Vec<u8>> for GenericValue<Vec<u8>, StrType> {
    fn from(value: Vec<u8>) -> (r: Self) {
        GenericValue::Vbytes(value)
    }
}

impl<StrType> vstd::std_specs::convert::FromSpecImpl<Vec<u8>> for GenericValue<Vec<u8>, StrType> {
    open spec fn obeys_from_spec() -> bool {
        true
    }

    open spec fn from_spec(value: Vec<u8>) -> Self {
        GenericValue::Vbytes(value)
    }
}

impl<'a, ArrType> From<&'a str> for GenericValue<ArrType, &'a str> {
    fn from(value: &'a str) -> (r: Self) {
        GenericValue::Vstring(value)
    }
}

impl<'a, ArrType> vstd::std_specs::convert::FromSpecImpl<&'a str> for GenericValue<ArrType, &'a str> {
    open spec fn obeys_from_spec() -> bool {
        true
    }

    open spec fn from_spec(value: &'a str) -> Self {
        GenericValue::Vstring(value)
    }
}

impl<ArrType> From<String> for GenericValue<ArrType, String> {
    fn from(value: String) -> (r: Self) {
        GenericValue::Vstring(value)
    }
}

impl<ArrType> vstd::std_specs::convert::FromSpecImpl<String> for GenericValue<ArrType, String> {
    open spec fn obeys_from_spec() -> bool {
        true
    }

    open spec fn from_spec(value: String) -> Self {
        GenericValue::Vstring(value)
    }
}

} // verus!
