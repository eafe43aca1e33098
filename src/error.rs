use vstd::prelude::*;

verus! {

/// Fault reported by the primitive ABI decoder, with the payload of each kind
/// held as text where the primitive library's own value is not comparable.
#[derive(Debug)]
pub enum DecodeFault {
    /// Invalid entity such as a bad function name.
    InvalidName(String),
    /// Invalid data: truncated, out of bounds or malformed.
    InvalidData,
    /// Serialization fault, by its message.
    SerdeJson(String),
    /// Integer parsing fault, by its message.
    ParseInt(String),
    /// Hex parsing fault, by its message.
    Hex(String),
    /// Any other fault.
    Other(String),
}

/// A token was well formed but could not be turned into the target shape.
#[derive(Debug)]
pub struct InvalidOutputType(pub String);

/// A byte-string literal could not be parsed.
#[derive(Debug)]
pub struct ParseBytesError(pub String);

/// Failure of the codec.
#[derive(Debug)]
pub enum AbiError {
    /// The primitive decoder failed, or the input was shorter than the schema allows.
    DecodingError(DecodeFault),
    /// The tokens did not have the shape of the target type.
    DetokenizationError(InvalidOutputType),
    /// Missing or wrong function selector.
    WrongSelector,
    /// A byte-string literal was malformed.
    ParseBytesError(ParseBytesError),
}

/// Failure of the parser of human-readable ABI text.
#[derive(Debug)]
pub enum ParseError {
    Message(String),
    /// A fault of the primitive ABI library.
    ParseError(DecodeFault),
    /// A fault of the lexer, by its message.
    LexerError(String),
}

/// Two faults are equal when they are of one kind with equal payloads.
pub open spec fn fault_eq(a: DecodeFault, b: DecodeFault) -> bool {
    match (a, b) {
        (DecodeFault::InvalidName(x), DecodeFault::InvalidName(y)) => x@ == y@,
        (DecodeFault::InvalidData, DecodeFault::InvalidData) => true,
        (DecodeFault::SerdeJson(x), DecodeFault::SerdeJson(y)) => x@ == y@,
        (DecodeFault::ParseInt(x), DecodeFault::ParseInt(y)) => x@ == y@,
        (DecodeFault::Hex(x), DecodeFault::Hex(y)) => x@ == y@,
        (DecodeFault::Other(x), DecodeFault::Other(y)) => x@ == y@,
        _ => false,
    }
}

/// Two errors are equal when they are of one variant with equal payloads.
pub open spec fn abi_error_eq(a: AbiError, b: AbiError) -> bool {
    match (a, b) {
        (AbiError::DecodingError(x), AbiError::DecodingError(y)) => fault_eq(x, y),
        (AbiError::DetokenizationError(x), AbiError::DetokenizationError(y)) => x.0@ == y.0@,
        (AbiError::WrongSelector, AbiError::WrongSelector) => true,
        (AbiError::ParseBytesError(x), AbiError::ParseBytesError(y)) => x.0@ == y.0@,
        _ => false,
    }
}

impl PartialEq for AbiError {
    fn eq(&self, other: &Self) -> (r: bool)
        ensures
            r == abi_error_eq(*self, *other),
    {
        match (self, other) {
            (AbiError::DecodingError(this), AbiError::DecodingError(other)) => {
                match (this, other) {
                    (DecodeFault::InvalidName(this), DecodeFault::InvalidName(other)) => {
                        *this == *other
                    },
                    (DecodeFault::InvalidData, DecodeFault::InvalidData) => true,
                    (DecodeFault::SerdeJson(this), DecodeFault::SerdeJson(other)) => {
                        *this == *other
                    },
                    (DecodeFault::ParseInt(this), DecodeFault::ParseInt(other)) => *this == *other,
                    (DecodeFault::Hex(this), DecodeFault::Hex(other)) => *this == *other,
                    (DecodeFault::Other(this), DecodeFault::Other(other)) => *this == *other,
                    _ => false,
                }
            },
            (AbiError::DetokenizationError(this), AbiError::DetokenizationError(other)) => {
                this.0 == other.0
            },
            (AbiError::WrongSelector, AbiError::WrongSelector) => true,
            (AbiError::ParseBytesError(this), AbiError::ParseBytesError(other)) => {
                this.0 == other.0
            },
            _ => false,
        }
    }
}

impl vstd::std_specs::cmp::PartialEqSpecImpl for AbiError {
    open spec fn obeys_eq_spec() -> bool {
        true
    }

    open spec fn eq_spec(&self, other: &AbiError) -> bool {
        abi_error_eq(*self, *other)
    }
}

impl From<DecodeFault> for AbiError {
    fn from(value: DecodeFault) -> (r: AbiError)
        ensures
            r == AbiError::DecodingError(value),
    {
        AbiError::DecodingError(value)
    }
}

impl vstd::std_specs::convert::FromSpecImpl<DecodeFault> for AbiError {
    open spec fn obeys_from_spec() -> bool {
        true
    }

    open spec fn from_spec(value: DecodeFault) -> AbiError {
        AbiError::DecodingError(value)
    }
}

impl From<InvalidOutputType> for AbiError {
    fn from(value: InvalidOutputType) -> (r: AbiError)
        ensures
            r == AbiError::DetokenizationError(value),
    {
        AbiError::DetokenizationError(value)
    }
}

impl vstd::std_specs::convert::FromSpecImpl<InvalidOutputType> for AbiError {
    open spec fn obeys_from_spec() -> bool {
        true
    }

    open spec fn from_spec(value: InvalidOutputType) -> AbiError {
        AbiError::DetokenizationError(value)
    }
}

impl From<ParseBytesError> for AbiError {
    fn from(value: ParseBytesError) -> (r: AbiError)
        ensures
            r == AbiError::ParseBytesError(value),
    {
        AbiError::ParseBytesError(value)
    }
}

impl vstd::std_specs::convert::FromSpecImpl<ParseBytesError> for AbiError {
    open spec fn obeys_from_spec() -> bool {
        true
    }

    open spec fn from_spec(value: ParseBytesError) -> AbiError {
        AbiError::ParseBytesError(value)
    }
}

impl From<DecodeFault> for ParseError {
    fn from(value: DecodeFault) -> (r: ParseError)
        ensures
            r == ParseError::ParseError(value),
    {
        ParseError::ParseError(value)
    }
}

impl vstd::std_specs::convert::FromSpecImpl<DecodeFault> for ParseError {
    open spec fn obeys_from_spec() -> bool {
        true
    }

    open spec fn from_spec(value: DecodeFault) -> ParseError {
        ParseError::ParseError(value)
    }
}

} // verus!
