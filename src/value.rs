//! Type tags of script values.
use vstd::prelude::*;
use vstd::string::*;
use crate::error::Error;
use crate::limits::framed_number_string;
use crate::text::decimal;

verus! {

/// The type of a script value.
#[derive(Debug, Clone, Copy, PartialEq, Eq, Hash, Structural)]
pub enum ValueType {
    /// Null/nil value.
    Null,
    /// Boolean value.
    Bool,
    /// Integer value.
    Int,
    /// Floating point value.
    Float,
    /// String value.
    String,
    /// List/array value.
    List,
    /// Map/object value.
    Object,
    /// Function value.
    Function,
    /// Bytes/binary data.
    Bytes,
    /// Error value.
    Error,
}

impl ValueType {
    /// Lower-case name of the type.
    pub open spec fn spec_name(self) -> Seq<char> {
        match self {
            ValueType::Null => "null"@,
            ValueType::Bool => "bool"@,
            ValueType::Int => "int"@,
            ValueType::Float => "float"@,
            ValueType::String => "string"@,
            ValueType::List => "list"@,
            ValueType::Object => "map"@,
            ValueType::Function => "function"@,
            ValueType::Bytes => "bytes"@,
            ValueType::Error => "error"@,
        }
    }

    /// Lower-case name of the type.
    pub fn name(&self) -> (r: &'static str)
        ensures
            r@ == self.spec_name(),
    {
        match self {
            ValueType::Null => "null",
            ValueType::Bool => "bool",
            ValueType::Int => "int",
            ValueType::Float => "float",
            ValueType::String => "string",
            ValueType::List => "list",
            ValueType::Object => "map",
            ValueType::Function => "function",
            ValueType::Bytes => "bytes",
            ValueType::Error => "error",
        }
    }
}

/// An opaque reference to a script function.
#[derive(Debug, Clone, PartialEq)]
pub struct FunctionRef {
    id: u64,
    name: Option<String>,
}

impl FunctionRef {
    /// A reference to function `id`, with its name if known.
    pub fn new(id: u64, name: Option<String>) -> (r: FunctionRef)
        ensures
            r.spec_id() == id,
            r.spec_name() == name,
    {
        FunctionRef { id, name }
    }

    /// Internal identifier.
    pub closed spec fn spec_id(&self) -> u64 {
        self.id
    }

    /// Function name if known.
    pub closed spec fn spec_name(&self) -> Option<String> {
        self.name
    }

    /// Internal identifier.
    pub fn id(&self) -> (r: u64)
        ensures
            r == self.spec_id(),
    {
        self.id
    }

    /// Get the function name if available.
    pub fn name(&self) -> (r: Option<&str>)
        ensures
            match self.spec_name() {
                Some(n) => r matches Some(s) && s@ == n@,
                None => r is None,
            },
    {
        match &self.name {
            Some(n) => Some(n.as_str()),
            None => None,
        }
    }
}

/// Error extracting a host function argument.
#[derive(Debug, Clone)]
pub struct ArgError {
    /// Argument position (0-indexed).
    pub position: usize,
    /// Expected type.
    pub expected: &'static str,
    /// What went wrong.
    pub message: String,
}

impl ArgError {
    /// `argument <position>: expected <type>, <message>`.
    pub open spec fn spec_text(&self) -> Seq<char> {
        "argument "@ + decimal(self.position as nat) + ": expected "@ + self.expected@ + ", "@
            + self.message@
    }

    /// The text that describes the error.
    pub fn to_string(&self) -> (r: String)
        ensures
            r@ == self.spec_text(),
    {
        let mut r = framed_number_string("argument ", self.position as u64, ": expected ");
        r.append(self.expected);
        r.append(", ");
        r.append(self.message.as_str());
        r
    }

    /// The host function error that reports this argument error.
    pub fn into_error(self) -> (r: Error)
        ensures
            r matches Error::HostFunction(m) && m@ == self.spec_text(),
    {
        Error::HostFunction(self.to_string())
    }
}

/// An optional host function argument: absent or null gives `None`.
#[derive(Debug, Clone, PartialEq)]
pub struct Optional<T>(pub Option<T>);

/// The remaining host function arguments, from some position on.
#[derive(Debug, Clone, PartialEq)]
pub struct Rest<T>(pub Vec<T>);

} // verus!
