//! Check parameters as they arrive: an untyped, structured value, and the
//! readers that take the fields of a schema out of it.
//!
//! A parameter set is an object. A reader looks a field up by name (the first
//! field of that name counts) and accepts it only in the shape that the
//! schema gives it; fields that the schema does not name are ignored.

use crate::text::join3;
use vstd::prelude::*;
use vstd::string::*;

verus! {

/// A number in a parameter set. A fraction is carried as the bit pattern of
/// the double-precision number that holds it.
#[derive(Debug)]
pub enum ParamNumber {
    Unsigned(u64),
    Negative(i64),
    Fraction(u64),
}

/// An untyped, structured value.
#[derive(Debug)]
pub enum ParamValue {
    Null,
    Bool(bool),
    Number(ParamNumber),
    Text(String),
    List(Vec<ParamValue>),
    Object(Vec<ParamField>),
}

/// A named member of an object.
#[derive(Debug)]
pub struct ParamField {
    pub name: String,
    pub value: ParamValue,
}

/// Why a parameter set does not fit a schema.
#[derive(Debug, Clone, Copy, PartialEq, Eq, Structural)]
pub enum ParamFault {
    /// The parameter set is not an object.
    NotAnObject,
    /// A required field is absent.
    Missing,
    /// A field holds a value of another type than the schema's.
    WrongType,
    /// A field holds a number outside the range of the schema's type.
    OutOfRange,
}

/// A fault, and the field it was found in. For `NotAnObject` the field is
/// the one that was being read.
#[derive(Debug, Clone, Copy)]
pub struct ParamError {
    pub fault: ParamFault,
    pub field: &'static str,
}

impl View for ParamError {
    type V = (ParamFault, Seq<char>);

    open spec fn view(&self) -> (ParamFault, Seq<char>) {
        (self.fault, self.field@)
    }
}

/// The value of the first field called `name`.
pub open spec fn first_named(fields: Seq<ParamField>, name: Seq<char>) -> Option<ParamValue>
    decreases fields.len(),
{
    if fields.len() == 0 {
        None
    } else if fields[0].name@ == name {
        Some(fields[0].value)
    } else {
        first_named(fields.skip(1), name)
    }
}

/// A required text field.
pub open spec fn text_field(v: ParamValue, name: Seq<char>) -> Result<Seq<char>, (ParamFault, Seq<char>)> {
    match v {
        ParamValue::Object(fields) => match first_named(fields@, name) {
            None => Err((ParamFault::Missing, name)),
            Some(ParamValue::Text(s)) => Ok(s@),
            Some(_) => Err((ParamFault::WrongType, name)),
        },
        _ => Err((ParamFault::NotAnObject, name)),
    }
}

/// An optional text field: absent and null both stand for no value.
pub open spec fn optional_text_field(v: ParamValue, name: Seq<char>) -> Result<
    Option<Seq<char>>,
    (ParamFault, Seq<char>),
> {
    match v {
        ParamValue::Object(fields) => match first_named(fields@, name) {
            None => Ok(None),
            Some(ParamValue::Null) => Ok(None),
            Some(ParamValue::Text(s)) => Ok(Some(s@)),
            Some(_) => Err((ParamFault::WrongType, name)),
        },
        _ => Err((ParamFault::NotAnObject, name)),
    }
}

/// A flag that takes the value `default` where the field is absent.
pub open spec fn flag_field(v: ParamValue, name: Seq<char>, default: bool) -> Result<
    bool,
    (ParamFault, Seq<char>),
> {
    match v {
        ParamValue::Object(fields) => match first_named(fields@, name) {
            None => Ok(default),
            Some(ParamValue::Bool(b)) => Ok(b),
            Some(_) => Err((ParamFault::WrongType, name)),
        },
        _ => Err((ParamFault::NotAnObject, name)),
    }
}

/// A required port number: a whole number from 0 to 65535.
pub open spec fn port_field(v: ParamValue, name: Seq<char>) -> Result<u16, (ParamFault, Seq<char>)> {
    match v {
        ParamValue::Object(fields) => match first_named(fields@, name) {
            None => Err((ParamFault::Missing, name)),
            Some(ParamValue::Number(ParamNumber::Unsigned(n))) => if n <= 65535 {
                Ok(n as u16)
            } else {
                Err((ParamFault::OutOfRange, name))
            },
            Some(ParamValue::Number(ParamNumber::Negative(_))) => Err(
                (ParamFault::OutOfRange, name),
            ),
            Some(_) => Err((ParamFault::WrongType, name)),
        },
        _ => Err((ParamFault::NotAnObject, name)),
    }
}

/// The text that reports a fault.
pub open spec fn fault_message(fault: ParamFault, field: Seq<char>) -> Seq<char> {
    match fault {
        ParamFault::NotAnObject => "invalid type: expected an object with field `"@ + field + "`"@,
        ParamFault::Missing => "missing field `"@ + field + "`"@,
        ParamFault::WrongType => "invalid type for field `"@ + field + "`"@,
        ParamFault::OutOfRange => "invalid value for field `"@ + field + "`"@,
    }
}

impl ParamError {
    /// The text that reports the fault.
    pub fn message(&self) -> (r: String)
        ensures
            r@ == fault_message(self.fault, self.field@),
    {
        match self.fault {
            ParamFault::NotAnObject => join3(
                "invalid type: expected an object with field `",
                self.field,
                "`",
            ),
            ParamFault::Missing => join3("missing field `", self.field, "`"),
            ParamFault::WrongType => join3("invalid type for field `", self.field, "`"),
            ParamFault::OutOfRange => join3("invalid value for field `", self.field, "`"),
        }
    }
}

/// The first field of `fields` that is called `name`.
pub fn find_field<'a>(fields: &'a Vec<ParamField>, name: &str) -> (r: Option<&'a ParamValue>)
    ensures
        match r {
            Some(v) => first_named(fields@, name@) == Some(*v),
            None => first_named(fields@, name@) is None,
        },
{
    let mut i: usize = 0;
    assert(fields@.skip(0) =~= fields@);
    while i < fields.len()
        invariant
            i <= fields.len(),
            first_named(fields@, name@) == first_named(fields@.skip(i as int), name@),
        decreases fields.len() - i,
    {
        if fields[i].name.as_str().eq(name) {
            return Some(&fields[i].value);
        }
        assert(fields@.skip(i as int).skip(1) =~= fields@.skip(i + 1));
        i += 1;
    }
    None
}

impl ParamValue {
    /// Reads a required text field.
    pub fn text(&self, name: &'static str) -> (r: Result<String, ParamError>)
        ensures
            match r {
                Ok(s) => text_field(*self, name@) == Ok::<Seq<char>, (ParamFault, Seq<char>)>(s@),
                Err(e) => text_field(*self, name@) == Err::<Seq<char>, (ParamFault, Seq<char>)>(
                    e@,
                ),
            },
    {
        match self {
            ParamValue::Object(fields) => match find_field(fields, name) {
                None => Err(ParamError { fault: ParamFault::Missing, field: name }),
                Some(ParamValue::Text(s)) => Ok(s.clone()),
                Some(_) => Err(ParamError { fault: ParamFault::WrongType, field: name }),
            },
            _ => Err(ParamError { fault: ParamFault::NotAnObject, field: name }),
        }
    }

    /// Reads an optional text field.
    pub fn optional_text(&self, name: &'static str) -> (r: Result<Option<String>, ParamError>)
        ensures
            match r {
                Ok(Some(s)) => optional_text_field(*self, name@) == Ok::<
                    Option<Seq<char>>,
                    (ParamFault, Seq<char>),
                >(Some(s@)),
                Ok(None) => optional_text_field(*self, name@) == Ok::<
                    Option<Seq<char>>,
                    (ParamFault, Seq<char>),
                >(None),
                Err(e) => optional_text_field(*self, name@) == Err::<
                    Option<Seq<char>>,
                    (ParamFault, Seq<char>),
                >(e@),
            },
    {
        match self {
            ParamValue::Object(fields) => match find_field(fields, name) {
                None => Ok(None),
                Some(ParamValue::Null) => Ok(None),
                Some(ParamValue::Text(s)) => Ok(Some(s.clone())),
                Some(_) => Err(ParamError { fault: ParamFault::WrongType, field: name }),
            },
            _ => Err(ParamError { fault: ParamFault::NotAnObject, field: name }),
        }
    }

    /// Reads a flag that takes the value `default` where the field is absent.
    pub fn flag(&self, name: &'static str, default: bool) -> (r: Result<bool, ParamError>)
        ensures
            match r {
                Ok(b) => flag_field(*self, name@, default) == Ok::<bool, (ParamFault, Seq<char>)>(
                    b,
                ),
                Err(e) => flag_field(*self, name@, default) == Err::<
                    bool,
                    (ParamFault, Seq<char>),
                >(e@),
            },
    {
        match self {
            ParamValue::Object(fields) => match find_field(fields, name) {
                None => Ok(default),
                Some(ParamValue::Bool(b)) => Ok(*b),
                Some(_) => Err(ParamError { fault: ParamFault::WrongType, field: name }),
            },
            _ => Err(ParamError { fault: ParamFault::NotAnObject, field: name }),
        }
    }

    /// Reads a required port number.
    pub fn port(&self, name: &'static str) -> (r: Result<u16, ParamError>)
        ensures
            match r {
                Ok(p) => port_field(*self, name@) == Ok::<u16, (ParamFault, Seq<char>)>(p),
                Err(e) => port_field(*self, name@) == Err::<u16, (ParamFault, Seq<char>)>(e@),
            },
    {
        match self {
            ParamValue::Object(fields) => match find_field(fields, name) {
                None => Err(ParamError { fault: ParamFault::Missing, field: name }),
                Some(ParamValue::Number(ParamNumber::Unsigned(n))) => if *n <= 65535 {
                    Ok(*n as u16)
                } else {
                    Err(ParamError { fault: ParamFault::OutOfRange, field: name })
                },
                Some(ParamValue::Number(ParamNumber::Negative(_))) => Err(
                    ParamError { fault: ParamFault::OutOfRange, field: name },
                ),
                Some(_) => Err(ParamError { fault: ParamFault::WrongType, field: name }),
            },
            _ => Err(ParamError { fault: ParamFault::NotAnObject, field: name }),
        }
    }
}

} // verus!
