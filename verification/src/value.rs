//! The scalar value model: a closed set of scalar kinds plus a typed
//! null marker, so that an absent value still carries its intended kind.

use vstd::prelude::*;

verus! {

/// The kind tag of a scalar value.  A null value carries the kind it would
/// have held, so a backend can bind a correctly typed "no value".
#[derive(Clone, Copy, Debug, PartialEq, Eq, Structural)]
pub enum Null {
    Bool,
    TinyInt,
    SmallInt,
    Int,
    BigInt,
    TinyUInt,
    SmallUInt,
    UInt,
    BigUInt,
    Text,
    Bytes,
}

/// A scalar value: boolean, signed and unsigned integers at four widths,
/// text, a byte blob, or a typed null.
#[derive(Clone, Debug, PartialEq, Eq)]
pub enum Value {
    Null(Null),
    Bool(bool),
    TinyInt(i8),
    SmallInt(i16),
    Int(i32),
    BigInt(i64),
    TinyUInt(u8),
    SmallUInt(u16),
    UInt(u32),
    BigUInt(u64),
    Text(String),
    Bytes(Vec<u8>),
}

impl Value {
    /// The kind tag of this value; a null reports the kind it stands for.
    pub open spec fn spec_kind(self) -> Null {
        match self {
            Value::Null(k) => k,
            Value::Bool(_) => Null::Bool,
            Value::TinyInt(_) => Null::TinyInt,
            Value::SmallInt(_) => Null::SmallInt,
            Value::Int(_) => Null::Int,
            Value::BigInt(_) => Null::BigInt,
            Value::TinyUInt(_) => Null::TinyUInt,
            Value::SmallUInt(_) => Null::SmallUInt,
            Value::UInt(_) => Null::UInt,
            Value::BigUInt(_) => Null::BigUInt,
            Value::Text(_) => Null::Text,
            Value::Bytes(_) => Null::Bytes,
        }
    }

    /// The kind tag of this value.
    pub fn kind(&self) -> (k: Null)
        ensures
            k == self.spec_kind(),
    {
        match self {
            Value::Null(k) => *k,
            Value::Bool(_) => Null::Bool,
            Value::TinyInt(_) => Null::TinyInt,
            Value::SmallInt(_) => Null::SmallInt,
            Value::Int(_) => Null::Int,
            Value::BigInt(_) => Null::BigInt,
            Value::TinyUInt(_) => Null::TinyUInt,
            Value::SmallUInt(_) => Null::SmallUInt,
            Value::UInt(_) => Null::UInt,
            Value::BigUInt(_) => Null::BigUInt,
            Value::Text(_) => Null::Text,
            Value::Bytes(_) => Null::Bytes,
        }
    }


    /// Wrap a host `bool` as a value; the conversion is total and
    /// lossless.
    pub fn from_bool(x: bool) -> (v: Value)
        ensures
            v == Value::Bool(x),
    {
        Value::Bool(x)
    }

    /// Wrap an optional host `bool` as a value: an absent value becomes
    /// the null of the same kind, so it still carries its intended type.
    pub fn from_opt_bool(x: Option<bool>) -> (v: Value)
        ensures
            v == match x {
                None => Value::Null(Null::Bool),
                Some(y) => Value::Bool(y),
            },
    {
        match x {
            None => Value::Null(Null::Bool),
            Some(y) => Value::Bool(y),
        }
    }

    /// Wrap a host `i8` as a value; the conversion is total and
    /// lossless.
    pub fn from_i8(x: i8) -> (v: Value)
        ensures
            v == Value::TinyInt(x),
    {
        Value::TinyInt(x)
    }

    /// Wrap an optional host `i8` as a value: an absent value becomes
    /// the null of the same kind, so it still carries its intended type.
    pub fn from_opt_i8(x: Option<i8>) -> (v: Value)
        ensures
            v == match x {
                None => Value::Null(Null::TinyInt),
                Some(y) => Value::TinyInt(y),
            },
    {
        match x {
            None => Value::Null(Null::TinyInt),
            Some(y) => Value::TinyInt(y),
        }
    }

    /// Wrap a host `i16` as a value; the conversion is total and
    /// lossless.
    pub fn from_i16(x: i16) -> (v: Value)
        ensures
            v == Value::SmallInt(x),
    {
        Value::SmallInt(x)
    }

    /// Wrap an optional host `i16` as a value: an absent value becomes
    /// the null of the same kind, so it still carries its intended type.
    pub fn from_opt_i16(x: Option<i16>) -> (v: Value)
        ensures
            v == match x {
                None => Value::Null(Null::SmallInt),
                Some(y) => Value::SmallInt(y),
            },
    {
        match x {
            None => Value::Null(Null::SmallInt),
            Some(y) => Value::SmallInt(y),
        }
    }

    /// Wrap a host `i32` as a value; the conversion is total and
    /// lossless.
    pub fn from_i32(x: i32) -> (v: Value)
        ensures
            v == Value::Int(x),
    {
        Value::Int(x)
    }

    /// Wrap an optional host `i32` as a value: an absent value becomes
    /// the null of the same kind, so it still carries its intended type.
    pub fn from_opt_i32(x: Option<i32>) -> (v: Value)
        ensures
            v == match x {
                None => Value::Null(Null::Int),
                Some(y) => Value::Int(y),
            },
    {
        match x {
            None => Value::Null(Null::Int),
            Some(y) => Value::Int(y),
        }
    }

    /// Wrap a host `i64` as a value; the conversion is total and
    /// lossless.
    pub fn from_i64(x: i64) -> (v: Value)
        ensures
            v == Value::BigInt(x),
    {
        Value::BigInt(x)
    }

    /// Wrap an optional host `i64` as a value: an absent value becomes
    /// the null of the same kind, so it still carries its intended type.
    pub fn from_opt_i64(x: Option<i64>) -> (v: Value)
        ensures
            v == match x {
                None => Value::Null(Null::BigInt),
                Some(y) => Value::BigInt(y),
            },
    {
        match x {
            None => Value::Null(Null::BigInt),
            Some(y) => Value::BigInt(y),
        }
    }

    /// Wrap a host `u8` as a value; the conversion is total and
    /// lossless.
    pub fn from_u8(x: u8) -> (v: Value)
        ensures
            v == Value::TinyUInt(x),
    {
        Value::TinyUInt(x)
    }

    /// Wrap an optional host `u8` as a value: an absent value becomes
    /// the null of the same kind, so it still carries its intended type.
    pub fn from_opt_u8(x: Option<u8>) -> (v: Value)
        ensures
            v == match x {
                None => Value::Null(Null::TinyUInt),
                Some(y) => Value::TinyUInt(y),
            },
    {
        match x {
            None => Value::Null(Null::TinyUInt),
            Some(y) => Value::TinyUInt(y),
        }
    }

    /// Wrap a host `u16` as a value; the conversion is total and
    /// lossless.
    pub fn from_u16(x: u16) -> (v: Value)
        ensures
            v == Value::SmallUInt(x),
    {
        Value::SmallUInt(x)
    }

    /// Wrap an optional host `u16` as a value: an absent value becomes
    /// the null of the same kind, so it still carries its intended type.
    pub fn from_opt_u16(x: Option<u16>) -> (v: Value)
        ensures
            v == match x {
                None => Value::Null(Null::SmallUInt),
                Some(y) => Value::SmallUInt(y),
            },
    {
        match x {
            None => Value::Null(Null::SmallUInt),
            Some(y) => Value::SmallUInt(y),
        }
    }

    /// Wrap a host `u32` as a value; the conversion is total and
    /// lossless.
    pub fn from_u32(x: u32) -> (v: Value)
        ensures
            v == Value::UInt(x),
    {
        Value::UInt(x)
    }

    /// Wrap an optional host `u32` as a value: an absent value becomes
    /// the null of the same kind, so it still carries its intended type.
    pub fn from_opt_u32(x: Option<u32>) -> (v: Value)
        ensures
            v == match x {
                None => Value::Null(Null::UInt),
                Some(y) => Value::UInt(y),
            },
    {
        match x {
            None => Value::Null(Null::UInt),
            Some(y) => Value::UInt(y),
        }
    }

    /// Wrap a host `u64` as a value; the conversion is total and
    /// lossless.
    pub fn from_u64(x: u64) -> (v: Value)
        ensures
            v == Value::BigUInt(x),
    {
        Value::BigUInt(x)
    }

    /// Wrap an optional host `u64` as a value: an absent value becomes
    /// the null of the same kind, so it still carries its intended type.
    pub fn from_opt_u64(x: Option<u64>) -> (v: Value)
        ensures
            v == match x {
                None => Value::Null(Null::BigUInt),
                Some(y) => Value::BigUInt(y),
            },
    {
        match x {
            None => Value::Null(Null::BigUInt),
            Some(y) => Value::BigUInt(y),
        }
    }

    /// Wrap an optional borrowed string as a value: an absent value
    /// becomes the text-kinded null.
    pub fn from_opt_text(x: Option<&str>) -> (v: Value)
        ensures
            match x {
                None => v == Value::Null(Null::Text),
                Some(s) => v matches Value::Text(t) && t@ == s@,
            },
    {
        match x {
            None => Value::Null(Null::Text),
            Some(s) => Value::text(s),
        }
    }

    /// Wrap a byte string as a value.
    pub fn bytes(b: Vec<u8>) -> (v: Value)
        ensures
            v == Value::Bytes(b),
    {
        Value::Bytes(b)
    }

    /// Wrap an optional byte string as a value: an absent value becomes
    /// the bytes-kinded null.
    pub fn from_opt_bytes(b: Option<Vec<u8>>) -> (v: Value)
        ensures
            v == match b {
                None => Value::Null(Null::Bytes),
                Some(x) => Value::Bytes(x),
            },
    {
        match b {
            None => Value::Null(Null::Bytes),
            Some(x) => Value::Bytes(x),
        }
    }

    /// Wrap a borrowed string as a text value, copying it.
    pub fn text(s: &str) -> (v: Value)
        ensures
            v matches Value::Text(t) && t@ == s@,
    {
        Value::Text(String::from_str(s))
    }
}

} // verus!
