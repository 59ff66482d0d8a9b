//! Why a value cannot be stored as BSON, and the message given for it.
use vstd::prelude::*;

verus! {

/// A value that cannot be stored as BSON.
pub enum ConversionError {
    /// A document was expected and the value is not a mapping.
    NotAMapping,
    /// `decimal.Decimal` values are refused: PoloDB does not keep
    /// Decimal128 values.
    DecimalUnsupported,
    /// A datetime whose milliseconds since the epoch do not fit in an `i64`.
    DatetimeOutOfRange,
    /// A value of a type that has no BSON counterpart.
    UnsupportedType { kind: String },
}

/// The message for each refusal.
pub open spec fn conversion_message(error: ConversionError) -> Seq<char> {
    match error {
        ConversionError::NotAMapping => "expected a mapping with string keys"@,
        ConversionError::DecimalUnsupported =>
            "decimal.Decimal is not supported because PoloDB does not preserve Decimal128 values"@,
        ConversionError::DatetimeOutOfRange => "datetime is outside BSON's range"@,
        ConversionError::UnsupportedType { kind } => "unsupported value of type '"@
            + kind@ + "' for BSON conversion"@,
    }
}

/// Whether the refusal is about a number out of range (as opposed to a
/// value of the wrong type).
pub open spec fn is_range_error(error: ConversionError) -> bool {
    error is DatetimeOutOfRange
}

impl ConversionError {
    /// The message of the refusal.
    pub fn message(&self) -> (text: String)
        ensures
            text@ == conversion_message(*self),
    {
        match self {
            ConversionError::NotAMapping => String::from_str("expected a mapping with string keys"),
            ConversionError::DecimalUnsupported => String::from_str(
                "decimal.Decimal is not supported because PoloDB does not preserve Decimal128 values",
            ),
            ConversionError::DatetimeOutOfRange => String::from_str(
                "datetime is outside BSON's range",
            ),
            ConversionError::UnsupportedType { kind } => {
                let mut text = String::from_str("unsupported value of type '");
                text.append(kind.as_str());
                text.append("' for BSON conversion");
                text
            },
        }
    }

    /// Whether the refusal is about a number out of range.
    pub fn is_range_error(&self) -> (range: bool)
        ensures
            range == is_range_error(*self),
            range <==> *self is DatetimeOutOfRange,
    {
        match self {
            ConversionError::DatetimeOutOfRange => true,
            _ => false,
        }
    }
}

/// Only a datetime out of BSON's range is a range error (raised as
/// OverflowError); a value that is not a mapping, a `Decimal` and a value of
/// any unsupported type are type errors.
pub proof fn lemma_only_datetime_is_range_error(kind: String)
    ensures
        is_range_error(ConversionError::DatetimeOutOfRange),
        !is_range_error(ConversionError::NotAMapping),
        !is_range_error(ConversionError::DecimalUnsupported),
        !is_range_error(ConversionError::UnsupportedType { kind }),
{
}

} // verus!
