use vstd::prelude::*;

verus! {

/// The tri-state actuation directive that a raw command value coerces to.
#[derive(Debug, Clone, PartialEq, Eq, Structural)]
pub enum HighLowToggle {
    High,
    Low,
    Toggle,
}

/// A raw actuation value as it arrives in a command payload, reduced to the
/// closed set of shapes the coercion rules distinguish: a boolean, a number
/// (`Some` when it is an integer that fits in `i64`, `None` for any other
/// numeric value), a string, or anything else (null, array, object).
#[derive(Debug, Clone)]
pub enum RawValue {
    Bool(bool),
    Number(Option<i64>),
    Str(String),
    Other,
}

/// Why a raw value could not be coerced to a directive.
#[derive(Debug, Clone, PartialEq, Eq, Structural)]
pub enum CoercionError {
    /// A numeric value other than 0 or 1.
    UnsupportedNumber,
    /// A string outside the recognised set.
    UnknownString,
    /// A payload shape that never encodes a directive.
    UnsupportedType,
}

/// The coercion rules: booleans map to High/Low, the integers 1 and 0 map to
/// High/Low, the exact strings "on"/"high"/"1" map to High, "off"/"low"/"0"
/// map to Low, "toggle" maps to Toggle, and everything else is an error.
pub open spec fn coerce_spec(v: RawValue) -> Result<HighLowToggle, CoercionError> {
    match v {
        RawValue::Bool(b) => if b {
            Ok(HighLowToggle::High)
        } else {
            Ok(HighLowToggle::Low)
        },
        RawValue::Number(n) => match n {
            Some(i) => if i == 1 {
                Ok(HighLowToggle::High)
            } else if i == 0 {
                Ok(HighLowToggle::Low)
            } else {
                Err(CoercionError::UnsupportedNumber)
            },
            None => Err(CoercionError::UnsupportedNumber),
        },
        RawValue::Str(s) => if s@ == "on"@ || s@ == "high"@ || s@ == "1"@ {
            Ok(HighLowToggle::High)
        } else if s@ == "off"@ || s@ == "low"@ || s@ == "0"@ {
            Ok(HighLowToggle::Low)
        } else if s@ == "toggle"@ {
            Ok(HighLowToggle::Toggle)
        } else {
            Err(CoercionError::UnknownString)
        },
        RawValue::Other => Err(CoercionError::UnsupportedType),
    }
}

/// True exactly when the string equals the literal.
fn str_is(s: &String, lit: &str) -> (r: bool)
    ensures
        r == (s@ == lit@),
{
    *s == String::from_str(lit)
}

/// Convert a loosely-typed command payload value into an actuation directive,
/// exactly as `coerce_spec` prescribes.
pub fn coerce(v: &RawValue) -> (r: Result<HighLowToggle, CoercionError>)
    ensures
        r == coerce_spec(*v),
{
    match v {
        RawValue::Bool(b) => if *b {
            Ok(HighLowToggle::High)
        } else {
            Ok(HighLowToggle::Low)
        },
        RawValue::Number(n) => match n {
            Some(i) => if *i == 1 {
                Ok(HighLowToggle::High)
            } else if *i == 0 {
                Ok(HighLowToggle::Low)
            } else {
                Err(CoercionError::UnsupportedNumber)
            },
            None => Err(CoercionError::UnsupportedNumber),
        },
        RawValue::Str(s) => if str_is(s, "on") || str_is(s, "high") || str_is(s, "1") {
            Ok(HighLowToggle::High)
        } else if str_is(s, "off") || str_is(s, "low") || str_is(s, "0") {
            Ok(HighLowToggle::Low)
        } else if str_is(s, "toggle") {
            Ok(HighLowToggle::Toggle)
        } else {
            Err(CoercionError::UnknownString)
        },
        RawValue::Other => Err(CoercionError::UnsupportedType),
    }
}

} // verus!
