//! Errors of conversions between script values and host values.
use vstd::prelude::*;
use vstd::string::*;
use crate::value::ValueType;

verus! {

/// Error that occurs during value conversion.
#[derive(Debug, Clone, PartialEq)]
pub enum ValueConversionError {
    /// Type mismatch during conversion.
    TypeMismatch {
        /// The expected type.
        expected: ValueType,
        /// The actual type.
        actual: ValueType,
    },
    /// Missing required field in map.
    MissingField(String),
    /// Invalid value for the target type.
    InvalidValue(String),
    /// Out of range for numeric conversion.
    OutOfRange(String),
    /// Custom conversion error.
    Custom(String),
}

impl ValueConversionError {
    /// Create a type mismatch error.
    pub fn type_mismatch(expected: ValueType, actual: ValueType) -> (r: Self)
        ensures
            r == (ValueConversionError::TypeMismatch { expected, actual }),
    {
        ValueConversionError::TypeMismatch { expected, actual }
    }

    /// Create a missing field error.
    pub fn missing_field(field: &str) -> (r: Self)
        ensures
            r matches ValueConversionError::MissingField(m) && m@ == field@,
    {
        ValueConversionError::MissingField(field.to_owned())
    }

    /// Create an invalid value error.
    pub fn invalid_value(msg: &str) -> (r: Self)
        ensures
            r matches ValueConversionError::InvalidValue(m) && m@ == msg@,
    {
        ValueConversionError::InvalidValue(msg.to_owned())
    }

    /// Create an out of range error.
    pub fn out_of_range(msg: &str) -> (r: Self)
        ensures
            r matches ValueConversionError::OutOfRange(m) && m@ == msg@,
    {
        ValueConversionError::OutOfRange(msg.to_owned())
    }

    /// The text that describes the error.
    pub open spec fn spec_text(&self) -> Seq<char> {
        match self {
            ValueConversionError::TypeMismatch { expected, actual } => "type mismatch: expected "@
                + expected.spec_name() + ", got "@ + actual.spec_name(),
            ValueConversionError::MissingField(m) => "missing field: "@ + m@,
            ValueConversionError::InvalidValue(m) => "invalid value: "@ + m@,
            ValueConversionError::OutOfRange(m) => "value out of range: "@ + m@,
            ValueConversionError::Custom(m) => m@,
        }
    }

    /// The text that describes the error.
    pub fn to_string(&self) -> (r: String)
        ensures
            r@ == self.spec_text(),
    {
        match self {
            ValueConversionError::TypeMismatch { expected, actual } => {
                let mut r = String::from_str("type mismatch: expected ");
                r.append(expected.name());
                r.append(", got ");
                r.append(actual.name());
                r
            },
            ValueConversionError::MissingField(m) => {
                let mut r = String::from_str("missing field: ");
                r.append(m.as_str());
                r
            },
            ValueConversionError::InvalidValue(m) => {
                let mut r = String::from_str("invalid value: ");
                r.append(m.as_str());
                r
            },
            ValueConversionError::OutOfRange(m) => {
                let mut r = String::from_str("value out of range: ");
                r.append(m.as_str());
                r
            },
            ValueConversionError::Custom(m) => m.clone(),
        }
    }

    /// Create a custom error.
    pub fn custom(msg: &str) -> (r: Self)
        ensures
            r matches ValueConversionError::Custom(m) && m@ == msg@,
    {
        ValueConversionError::Custom(msg.to_owned())
    }
}

} // verus!
