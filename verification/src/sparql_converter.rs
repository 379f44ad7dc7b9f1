//! Conversion of a generic numeric value into a SPARQL-compatible literal
//! operand of a requested data kind.

use vstd::prelude::*;

use crate::decimal::{dec_int, lemma_decimal_round_trip, parse_decimal};
use crate::numeric::NumericOperand;
use crate::tree::value::ValueType;

verus! {

/// Why a number could not be converted into a literal of the requested kind.
#[derive(Copy, Clone, Debug, PartialEq, Eq)]
pub enum ConversionError {
    /// The requested value kind cannot be derived from a number at all.
    UnsupportedKind,
    /// The number is coercible, but falls outside the kind's accepted domain.
    OutOfRange,
    /// The number cannot be cast to the primitive type the kind requires.
    CoercionFailure,
}

/// What chrono renders for a Unix timestamp in the engine's datetime shape
/// (`YYYY-MM-DDTHH:MM:SSZ`); `None` for a timestamp outside chrono's range.
pub uninterp spec fn datetime_literal_of(timestamp: i64) -> Option<Seq<char>>;

/// Relies on chrono's `DateTime::<Utc>::from_timestamp` and its strftime-style
/// formatting: the rendering is a function of the timestamp alone, and an
/// out-of-range number of seconds gives `None`.
#[verifier::external_body]
fn format_unix_seconds(timestamp: i64) -> (r: Option<String>)
    ensures
        match r {
            Some(s) => datetime_literal_of(timestamp) == Some(s@),
            None => datetime_literal_of(timestamp) is None,
        },
{
    chrono::DateTime::from_timestamp(timestamp, 0).map(
        |date: chrono::DateTime<chrono::Utc>| date.format("%Y-%m-%dT%H:%M:%SZ").to_string(),
    )
}

/// The literal that converting a number into the given kind yields, or the
/// error when the kind refuses the number.
pub open spec fn number_literal<T: NumericOperand>(value: T, value_type: ValueType) -> Result<
    Seq<char>,
    ConversionError,
> {
    match value_type {
        ValueType::String => Err(ConversionError::UnsupportedKind),
        ValueType::Boolean => match value.as_u8() {
            Some(b) => if b == 1 {
                Ok("true"@)
            } else if b == 0 {
                Ok("false"@)
            } else {
                Err(ConversionError::OutOfRange)
            },
            None => Err(ConversionError::CoercionFailure),
        },
        ValueType::DateTime => match value.as_i64() {
            Some(t) => match datetime_literal_of(t) {
                Some(s) => Ok(s),
                None => Err(ConversionError::OutOfRange),
            },
            None => Err(ConversionError::CoercionFailure),
        },
        _ => Ok(value.literal_view()),
    }
}

/// Law: under every numeric kind (neither string, boolean, nor datetime), an
/// operand that renders in decimal converts to a literal that parses back to
/// the operand's own value.
pub proof fn lemma_numeric_literal_round_trip<T: NumericOperand>(
    value: T,
    value_type: ValueType,
    n: int,
)
    requires
        value.literal_view() == dec_int(n),
        !(value_type matches ValueType::String),
        !(value_type matches ValueType::Boolean),
        !(value_type matches ValueType::DateTime),
    ensures
        number_literal(value, value_type) == Ok::<Seq<char>, ConversionError>(dec_int(n)),
        parse_decimal(dec_int(n)) == Some(n),
{
    lemma_decimal_round_trip(n);
}

/// Law: under the boolean kind, one converts to `"true"`, zero converts to
/// `"false"`, any other coercible value is out of the kind's domain, and a
/// value that does not coerce to a byte fails the coercion.
pub proof fn lemma_boolean_domain<T: NumericOperand>(value: T)
    ensures
        value.as_u8() == Some(1u8) ==> number_literal(value, ValueType::Boolean) == Ok::<
            Seq<char>,
            ConversionError,
        >("true"@),
        value.as_u8() == Some(0u8) ==> number_literal(value, ValueType::Boolean) == Ok::<
            Seq<char>,
            ConversionError,
        >("false"@),
        (value.as_u8() matches Some(b) && b != 1 && b != 0) ==> number_literal(
            value,
            ValueType::Boolean,
        ) == Err::<Seq<char>, ConversionError>(ConversionError::OutOfRange),
        value.as_u8() is None ==> number_literal(value, ValueType::Boolean) == Err::<
            Seq<char>,
            ConversionError,
        >(ConversionError::CoercionFailure),
{
}

/// Whether an executable conversion result carries exactly the literal (or the
/// error) that the specification names.
pub open spec fn literal_result_matches(
    specified: Result<Seq<char>, ConversionError>,
    r: Result<String, ConversionError>,
) -> bool {
    match r {
        Ok(s) => specified == Ok::<Seq<char>, ConversionError>(s@),
        Err(e) => specified == Err::<Seq<char>, ConversionError>(e),
    }
}

/// Converts a value into a SPARQL-compatible literal operand of a requested kind.
pub trait SparqlConverter<T> {
    /// The literal this converter yields, as a function of value and kind.
    spec fn convert_spec(&self, value: T, value_type: ValueType) -> Result<
        Seq<char>,
        ConversionError,
    >;

    /// Convert a value into a literal of the given kind.
    fn convert(&self, value: T, value_type: ValueType) -> (r: Result<String, ConversionError>)
        ensures
            literal_result_matches(self.convert_spec(value, value_type), r),
    ;
}

/// Converts a number to a
/// [SPARQL](https://www.w3.org/TR/sparql11-query/#operandDataTypes) number
/// compatible operand.
pub struct NumberToSparqlConverter;

impl<T: NumericOperand> SparqlConverter<T> for NumberToSparqlConverter {
    open spec fn convert_spec(&self, value: T, value_type: ValueType) -> Result<
        Seq<char>,
        ConversionError,
    > {
        number_literal(value, value_type)
    }

    fn convert(&self, value: T, value_type: ValueType) -> (r: Result<String, ConversionError>) {
        match value_type {
            ValueType::String => Err(ConversionError::UnsupportedKind),
            ValueType::Boolean => match value.to_u8() {
                Some(1u8) => Ok(String::from_str("true")),
                Some(0u8) => Ok(String::from_str("false")),
                Some(_) => Err(ConversionError::OutOfRange),
                None => Err(ConversionError::CoercionFailure),
            },
            ValueType::DateTime => match value.to_i64() {
                Some(t) => match format_unix_seconds(t) {
                    Some(s) => Ok(s),
                    None => Err(ConversionError::OutOfRange),
                },
                None => Err(ConversionError::CoercionFailure),
            },
            _ => Ok(value.literal()),
        }
    }
}

} // verus!
