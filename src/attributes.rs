use vstd::prelude::*;

verus! {

/// A decimal number with three fractional digits, held as a count of
/// thousandths.
#[derive(Debug, Clone, Copy, PartialEq, Eq, Structural)]
pub struct Decimal {
    pub thousandths: i64,
}

impl Decimal {
    /// The number `thousandths / 1000`.
    pub fn from_thousandths(thousandths: i64) -> (r: Self)
        ensures
            r.thousandths == thousandths,
    {
        Decimal { thousandths }
    }

    /// The whole number `units`.
    pub fn from_units(units: i32) -> (r: Self)
        ensures
            r.thousandths == units * 1000,
    {
        Decimal { thousandths: units as i64 * 1000 }
    }
}

/// A configuration attribute value.
#[derive(Debug, PartialEq)]
pub enum Kind {
    NullValue,
    BoolValue(bool),
    NumberValue(Decimal),
    StringValue(String),
    StructValue(Vec<(String, Kind)>),
}

/// Failures of reading typed values out of attributes.
#[derive(Debug, Clone, PartialEq, Eq)]
pub enum AttributeError {
    KeyNotFound(String),
    ConversionImpossibleError,
    ValidationError(String),
}

/// The value of the first field named `key` in `fields`.
pub open spec fn field_of(fields: Seq<(String, Kind)>, key: Seq<char>) -> Option<Kind>
    decreases fields.len(),
{
    if fields.len() == 0 {
        None
    } else if fields[0].0@ == key {
        Some(fields[0].1)
    } else {
        field_of(fields.drop_first(), key)
    }
}

/// The lookup of `key` in `v`: `None` where `v` is not a struct, else the
/// field's value if it has one.
pub open spec fn spec_get(v: Kind, key: Seq<char>) -> Option<Option<Kind>> {
    match v {
        Kind::StructValue(fields) => Some(field_of(fields@, key)),
        _ => None,
    }
}

/// `x / 1000`, rounded toward zero and saturated to the range of `i32`.
pub open spec fn whole_part_i32(x: int) -> i32 {
    let t = if x >= 0 {
        x / 1000
    } else {
        -((-x) / 1000)
    };
    if t > i32::MAX {
        i32::MAX
    } else if t < i32::MIN {
        i32::MIN
    } else {
        t as i32
    }
}

impl Kind {
    /// The value of field `key`; a value that is not a struct has no fields
    /// and is refused.
    pub fn get(&self, key: &str) -> (r: Result<Option<&Kind>, AttributeError>)
        ensures
            match spec_get(*self, key@) {
                Some(f) => r matches Ok(o) && match o {
                    Some(v) => f == Some(*v),
                    None => f is None,
                },
                None => r matches Err(AttributeError::ConversionImpossibleError),
            },
    {
        match self {
            Kind::StructValue(fields) => {
                let name = key.to_string();
                let mut i: usize = 0;
                assert(fields@.subrange(0, fields@.len() as int) =~= fields@);
                while i < fields.len()
                    invariant
                        i <= fields@.len(),
                        name@ == key@,
                        spec_get(*self, key@) == Some(field_of(fields@, key@)),
                        field_of(fields@, key@) == field_of(fields@.subrange(i as int, fields@.len() as int), key@),
                    decreases fields@.len() - i,
                {
                    let ghost rest = fields@.subrange(i as int, fields@.len() as int);
                    assert(rest[0] == fields@[i as int]);
                    if fields[i].0 == name {
                        assert(field_of(rest, key@) == Some(fields@[i as int].1));
                        return Ok(Some(&fields[i].1));
                    }
                    assert(rest.drop_first() =~= fields@.subrange(i + 1, fields@.len() as int));
                    i = i + 1;
                }
                Ok(None)
            },
            _ => Err(AttributeError::ConversionImpossibleError),
        }
    }

    /// The text of a string value.
    pub fn to_text(&self) -> (r: Result<String, AttributeError>)
        ensures
            match *self {
                Kind::StringValue(s) => r matches Ok(t) && t@ == s@,
                _ => r matches Err(AttributeError::ConversionImpossibleError),
            },
    {
        match self {
            Kind::StringValue(s) => Ok(s.clone()),
            _ => Err(AttributeError::ConversionImpossibleError),
        }
    }

    /// The number of a number value.
    pub fn to_number(&self) -> (r: Result<Decimal, AttributeError>)
        ensures
            match *self {
                Kind::NumberValue(n) => r == Ok::<Decimal, AttributeError>(n),
                _ => r matches Err(AttributeError::ConversionImpossibleError),
            },
    {
        match self {
            Kind::NumberValue(n) => Ok(*n),
            _ => Err(AttributeError::ConversionImpossibleError),
        }
    }

    /// The whole part of a number value, saturated to `i32`.
    pub fn to_i32(&self) -> (r: Result<i32, AttributeError>)
        ensures
            match *self {
                Kind::NumberValue(n) => r == Ok::<i32, AttributeError>(whole_part_i32(n.thousandths as int)),
                _ => r matches Err(AttributeError::ConversionImpossibleError),
            },
    {
        match self {
            Kind::NumberValue(n) => {
                let x = n.thousandths;
                let t: i64 = if x >= 0 {
                    x / 1000
                } else if x == i64::MIN {
                    i64::MIN / 1000
                } else {
                    -((-x) / 1000)
                };
                let r: i32 = if t > i32::MAX as i64 {
                    i32::MAX
                } else if t < i32::MIN as i64 {
                    i32::MIN
                } else {
                    t as i32
                };
                Ok(r)
            },
            _ => Err(AttributeError::ConversionImpossibleError),
        }
    }
}

} // verus!
