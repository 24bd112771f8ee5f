//! Values of settings.

use vstd::prelude::*;

use super::text::{
    integer_text, integer_to_string, list_text, list_to_string, truth_text, truth_to_string,
};

verus! {

/// The current value of a setting, whatever its kind.
#[derive(Clone, Debug, PartialEq, Eq)]
pub enum Value {
    Bool(bool),
    U16(u16),
    OptionalU16(Option<u16>),
    I32(i32),
    I16Vec(Vec<i16>),
    String(String),
    OptionalString(Option<String>),
}

/// A value was asked for as a kind that it is not.
#[derive(Clone, Copy, Debug, PartialEq, Eq, Structural)]
pub enum ValueError {
    WrongType,
}

impl Value {
    /// The value as an optional text: a text is a present text, an absent
    /// optional text is absent, and every other kind is the wrong type.
    pub open spec fn spec_optional_text(self) -> Result<Option<Seq<char>>, ValueError> {
        match self {
            Value::String(text) => Ok(Some(text@)),
            Value::OptionalString(Some(text)) => Ok(Some(text@)),
            Value::OptionalString(None) => Ok(None),
            _ => Err(ValueError::WrongType),
        }
    }

    /// How the value is written out.
    pub open spec fn spec_text(self) -> Seq<char> {
        match self {
            Value::Bool(value) => truth_text(value),
            Value::U16(number) => integer_text(number as int),
            Value::OptionalU16(Some(number)) => integer_text(number as int),
            Value::OptionalU16(None) => Seq::empty(),
            Value::I32(number) => integer_text(number as int),
            Value::I16Vec(items) => list_text(items@.map_values(|item: i16| item as int)),
            Value::String(text) => text@,
            Value::OptionalString(Some(text)) => text@,
            Value::OptionalString(None) => Seq::empty(),
        }
    }

    pub fn try_as_bool(&self) -> (r: Result<bool, ValueError>)
        ensures
            *self matches Value::Bool(value) ==> r == Ok::<bool, ValueError>(value),
            !(self is Bool) ==> r is Err,
    {
        match self {
            Value::Bool(value) => Ok(*value),
            _ => Err(ValueError::WrongType),
        }
    }

    pub fn try_as_i32(&self) -> (r: Result<i32, ValueError>)
        ensures
            *self matches Value::I32(value) ==> r == Ok::<i32, ValueError>(value),
            !(self is I32) ==> r is Err,
    {
        match self {
            Value::I32(value) => Ok(*value),
            _ => Err(ValueError::WrongType),
        }
    }

    /// Exec counterpart of [`Value::spec_optional_text`].
    pub fn try_as_optional_str(&self) -> (r: Result<Option<&str>, ValueError>)
        ensures
            match r {
                Ok(Some(text)) => self.spec_optional_text() == Ok::<
                    Option<Seq<char>>,
                    ValueError,
                >(Some(text@)),
                Ok(None) => self.spec_optional_text() == Ok::<Option<Seq<char>>, ValueError>(None),
                Err(e) => self.spec_optional_text() == Err::<Option<Seq<char>>, ValueError>(e),
            },
    {
        match self {
            Value::String(text) => Ok(Some(text.as_str())),
            Value::OptionalString(Some(text)) => Ok(Some(text.as_str())),
            Value::OptionalString(None) => Ok(None),
            _ => Err(ValueError::WrongType),
        }
    }

    /// Exec counterpart of [`Value::spec_text`].
    pub fn to_string(&self) -> (r: String)
        ensures
            r@ == self.spec_text(),
    {
        match self {
            Value::Bool(value) => truth_to_string(*value),
            Value::U16(number) => integer_to_string(*number as i32),
            Value::OptionalU16(Some(number)) => integer_to_string(*number as i32),
            Value::OptionalU16(None) => String::new(),
            Value::I32(number) => integer_to_string(*number),
            Value::I16Vec(items) => list_to_string(items),
            Value::String(text) => text.clone(),
            Value::OptionalString(Some(text)) => text.clone(),
            Value::OptionalString(None) => String::new(),
        }
    }
}

} // verus!
