use vstd::prelude::*;

verus! {

/// Description of the value of a [Relation](`crate::tree::relation::Relation`).
#[derive(Clone, Debug, PartialEq, Eq)]
pub struct Value {
    /// Raw value as presented in RDF.
    pub value: String,
    /// Data type.
    pub value_type: ValueType,
}

/// Supported operand data types of
/// [SPARQL](https://www.w3.org/TR/sparql11-query/#operandDataTypes).
#[derive(Copy, Clone, Debug, PartialEq, Eq)]
pub enum ValueType {
    Integer,
    Decimal,
    Float,
    Double,
    String,
    Boolean,
    DateTime,
    NonPositiveInteger,
    NegativeInteger,
    Long,
    Int,
    Short,
    Byte,
    NonNegativeInteger,
    UnsignedLong,
    UnsignedInt,
    UnsignedShort,
    UnsignedByte,
    PositiveInteger,
}

impl ValueType {
    /// The canonical XML-Schema type URI of this data kind.
    pub open spec fn uri_spec(self) -> Seq<char> {
        match self {
            ValueType::Integer => "http://www.w3.org/2001/XMLSchema#integer"@,
            ValueType::Decimal => "http://www.w3.org/2001/XMLSchema#decimal"@,
            ValueType::Float => "http://www.w3.org/2001/XMLSchema#float"@,
            ValueType::Double => "http://www.w3.org/2001/XMLSchema#double"@,
            ValueType::String => "http://www.w3.org/2001/XMLSchema#string"@,
            ValueType::Boolean => "http://www.w3.org/2001/XMLSchema#boolean"@,
            ValueType::DateTime => "http://www.w3.org/2001/XMLSchema#dateTime"@,
            ValueType::NonPositiveInteger => "http://www.w3.org/2001/XMLSchema#nonPositiveInteger"@,
            ValueType::NegativeInteger => "http://www.w3.org/2001/XMLSchema#negativeInteger"@,
            ValueType::Long => "http://www.w3.org/2001/XMLSchema#long"@,
            ValueType::Int => "http://www.w3.org/2001/XMLSchema#int"@,
            ValueType::Short => "http://www.w3.org/2001/XMLSchema#short"@,
            ValueType::Byte => "http://www.w3.org/2001/XMLSchema#byte"@,
            ValueType::NonNegativeInteger => "http://www.w3.org/2001/XMLSchema#nonNegativeInteger"@,
            ValueType::UnsignedLong => "http://www.w3.org/2001/XMLSchema#unsignedLong"@,
            ValueType::UnsignedInt => "http://www.w3.org/2001/XMLSchema#unsignedInt"@,
            ValueType::UnsignedShort => "http://www.w3.org/2001/XMLSchema#unsignedShort"@,
            ValueType::UnsignedByte => "http://www.w3.org/2001/XMLSchema#unsignedByte"@,
            ValueType::PositiveInteger => "http://www.w3.org/2001/XMLSchema#positiveInteger"@,
        }
    }

    /// The canonical XML-Schema type URI of this data kind, as a string.
    pub fn uri(&self) -> (r: String)
        ensures
            r@ == self.uri_spec(),
    {
        match self {
            ValueType::Integer => String::from_str("http://www.w3.org/2001/XMLSchema#integer"),
            ValueType::Decimal => String::from_str("http://www.w3.org/2001/XMLSchema#decimal"),
            ValueType::Float => String::from_str("http://www.w3.org/2001/XMLSchema#float"),
            ValueType::Double => String::from_str("http://www.w3.org/2001/XMLSchema#double"),
            ValueType::String => String::from_str("http://www.w3.org/2001/XMLSchema#string"),
            ValueType::Boolean => String::from_str("http://www.w3.org/2001/XMLSchema#boolean"),
            ValueType::DateTime => String::from_str("http://www.w3.org/2001/XMLSchema#dateTime"),
            ValueType::NonPositiveInteger => String::from_str(
                "http://www.w3.org/2001/XMLSchema#nonPositiveInteger",
            ),
            ValueType::NegativeInteger => String::from_str(
                "http://www.w3.org/2001/XMLSchema#negativeInteger",
            ),
            ValueType::Long => String::from_str("http://www.w3.org/2001/XMLSchema#long"),
            ValueType::Int => String::from_str("http://www.w3.org/2001/XMLSchema#int"),
            ValueType::Short => String::from_str("http://www.w3.org/2001/XMLSchema#short"),
            ValueType::Byte => String::from_str("http://www.w3.org/2001/XMLSchema#byte"),
            ValueType::NonNegativeInteger => String::from_str(
                "http://www.w3.org/2001/XMLSchema#nonNegativeInteger",
            ),
            ValueType::UnsignedLong => String::from_str(
                "http://www.w3.org/2001/XMLSchema#unsignedLong",
            ),
            ValueType::UnsignedInt => String::from_str(
                "http://www.w3.org/2001/XMLSchema#unsignedInt",
            ),
            ValueType::UnsignedShort => String::from_str(
                "http://www.w3.org/2001/XMLSchema#unsignedShort",
            ),
            ValueType::UnsignedByte => String::from_str(
                "http://www.w3.org/2001/XMLSchema#unsignedByte",
            ),
            ValueType::PositiveInteger => String::from_str(
                "http://www.w3.org/2001/XMLSchema#positiveInteger",
            ),
        }
    }
}

} // verus!
