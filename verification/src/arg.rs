//! Plain argument values and their wire types.
//!
//! A request message arrives with its positional arguments already decoded
//! into [`ArgValue`]s, and replies carry the same representation back out;
//! the wire-level codec itself is outside this engine. [`ArgType`] is the
//! type descriptor used both for introspection metadata and for checking
//! a handler's declared argument specification against actual values.

use vstd::prelude::*;

verus! {

/// The wire type of one positional argument.
#[derive(Clone, Copy, Debug, PartialEq, Eq, Structural)]
pub enum ArgType {
    U16,
    U32,
    U64,
    Bool,
    Str,
}

/// One decoded positional argument.
#[derive(Clone, Debug, PartialEq)]
pub enum ArgValue {
    U16(u16),
    U32(u32),
    U64(u64),
    Bool(bool),
    Str(String),
}

/// The wire type that a value carries.
pub open spec fn arg_type_of(v: ArgValue) -> ArgType {
    match v {
        ArgValue::U16(_) => ArgType::U16,
        ArgValue::U32(_) => ArgType::U32,
        ArgValue::U64(_) => ArgType::U64,
        ArgValue::Bool(_) => ArgType::Bool,
        ArgValue::Str(_) => ArgType::Str,
    }
}

/// Whether a value is one of the unsigned integer types.
pub open spec fn is_numeric(v: ArgValue) -> bool {
    v is U16 || v is U32 || v is U64
}

/// The numeric content of an integer value, widened.
pub open spec fn numeric_of(v: ArgValue) -> u64 {
    match v {
        ArgValue::U16(n) => n as u64,
        ArgValue::U32(n) => n as u64,
        ArgValue::U64(n) => n,
        _ => 0,
    }
}

/// Conversion of a raw value to a declared wire type: integer values convert
/// among the integer types by truncation to the target width; every other
/// conversion must already be at the target type. `None` is an encoding
/// mismatch.
pub open spec fn coerce_spec(v: ArgValue, t: ArgType) -> Option<ArgValue> {
    if is_numeric(v) {
        match t {
            ArgType::U16 => Some(ArgValue::U16(numeric_of(v) as u16)),
            ArgType::U32 => Some(ArgValue::U32(numeric_of(v) as u32)),
            ArgType::U64 => Some(ArgValue::U64(numeric_of(v))),
            _ => None,
        }
    } else if arg_type_of(v) == t {
        Some(v)
    } else {
        None
    }
}

impl ArgValue {
    /// The wire type of this value.
    pub fn type_of(&self) -> (t: ArgType)
        ensures
            t == arg_type_of(*self),
    {
        match self {
            ArgValue::U16(_) => ArgType::U16,
            ArgValue::U32(_) => ArgType::U32,
            ArgValue::U64(_) => ArgType::U64,
            ArgValue::Bool(_) => ArgType::Bool,
            ArgValue::Str(_) => ArgType::Str,
        }
    }

    /// The numeric content of an integer value.
    pub fn as_u64(&self) -> (r: Option<u64>)
        ensures
            r is Some <==> is_numeric(*self),
            r is Some ==> r->0 == numeric_of(*self),
    {
        match self {
            ArgValue::U16(n) => Some(*n as u64),
            ArgValue::U32(n) => Some(*n as u64),
            ArgValue::U64(n) => Some(*n),
            _ => None,
        }
    }

    /// A copy of this value.
    pub fn dup(&self) -> (r: ArgValue)
        ensures
            r == *self,
    {
        match self {
            ArgValue::U16(n) => ArgValue::U16(*n),
            ArgValue::U32(n) => ArgValue::U32(*n),
            ArgValue::U64(n) => ArgValue::U64(*n),
            ArgValue::Bool(b) => ArgValue::Bool(*b),
            ArgValue::Str(s) => ArgValue::Str(s.clone()),
        }
    }

    /// Converts this value to the declared wire type `t`, truncating
    /// integers to the target width.
    pub fn coerce(&self, t: ArgType) -> (r: Option<ArgValue>)
        ensures
            r == coerce_spec(*self, t),
    {
        match self {
            ArgValue::Bool(b) => {
                if t == ArgType::Bool {
                    Some(ArgValue::Bool(*b))
                } else {
                    None
                }
            },
            ArgValue::Str(s) => {
                if t == ArgType::Str {
                    Some(ArgValue::Str(s.clone()))
                } else {
                    None
                }
            },
            _ => {
                let n = match self {
                    ArgValue::U16(x) => *x as u64,
                    ArgValue::U32(x) => *x as u64,
                    ArgValue::U64(x) => *x,
                    _ => 0,
                };
                match t {
                    ArgType::U16 => Some(ArgValue::U16(#[verifier::truncate] (n as u16))),
                    ArgType::U32 => Some(ArgValue::U32(#[verifier::truncate] (n as u32))),
                    ArgType::U64 => Some(ArgValue::U64(n)),
                    _ => None,
                }
            },
        }
    }
}

/// A handler-reported failure: a named protocol error with a free-text
/// description. Argument decoding and encoding mismatches are reported the
/// same way and become error replies, never engine faults.
#[derive(Clone, Debug, PartialEq)]
pub struct MethodErr {
    pub name: String,
    pub text: String,
}

impl MethodErr {
    /// A named error with a description.
    pub fn new(name: String, text: String) -> (r: MethodErr)
        ensures
            r.name == name,
            r.text == text,
    {
        MethodErr { name, text }
    }

    /// A copy of this error.
    pub fn dup(&self) -> (r: MethodErr)
        ensures
            r == *self,
    {
        MethodErr { name: self.name.clone(), text: self.text.clone() }
    }
}

} // verus!
