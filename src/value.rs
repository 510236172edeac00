use vstd::prelude::*;
use crate::error::MappingError;

verus! {

/// A value bound to a statement parameter or read from a column.
#[derive(Clone, Debug)]
pub enum SqlValue {
    Null,
    Integer(i64),
    Text(String),
}

/// What a `SqlValue` holds, with text as its characters.
pub enum Value {
    Null,
    Integer(i64),
    Text(Seq<char>),
}

impl View for SqlValue {
    type V = Value;

    open spec fn view(&self) -> Value {
        match self {
            SqlValue::Null => Value::Null,
            SqlValue::Integer(i) => Value::Integer(*i),
            SqlValue::Text(s) => Value::Text(s@),
        }
    }
}

/// The values of a row, column by column.
pub open spec fn row_view(row: Seq<SqlValue>) -> Seq<Value> {
    row.map_values(|v: SqlValue| v@)
}

pub open spec fn col_text(v: Value) -> Result<Seq<char>, MappingError> {
    match v {
        Value::Text(s) => Ok(s),
        _ => Err(MappingError::TypeMismatch),
    }
}

pub open spec fn col_opt_text(v: Value) -> Result<Option<Seq<char>>, MappingError> {
    match v {
        Value::Null => Ok(None),
        Value::Text(s) => Ok(Some(s)),
        _ => Err(MappingError::TypeMismatch),
    }
}

pub open spec fn col_opt_i64(v: Value) -> Result<Option<i64>, MappingError> {
    match v {
        Value::Null => Ok(None),
        Value::Integer(i) => Ok(Some(i)),
        _ => Err(MappingError::TypeMismatch),
    }
}

/// An integer column read into an unsigned field of `max` at most.
pub open spec fn col_unsigned(v: Value, max: int) -> Result<int, MappingError> {
    match v {
        Value::Integer(i) => if 0 <= i <= max {
            Ok(i as int)
        } else {
            Err(MappingError::TypeMismatch)
        },
        _ => Err(MappingError::TypeMismatch),
    }
}

/// A boolean is stored as the integer 0 or 1; any other integer reads as true.
pub open spec fn col_bool(v: Value) -> Result<bool, MappingError> {
    match v {
        Value::Integer(i) => Ok(i != 0),
        _ => Err(MappingError::TypeMismatch),
    }
}

pub fn read_text(v: &SqlValue) -> (r: Result<String, MappingError>)
    ensures
        match r {
            Ok(s) => col_text(v@) == Ok::<Seq<char>, MappingError>(s@),
            Err(e) => col_text(v@) == Err::<Seq<char>, MappingError>(e),
        },
{
    match v {
        SqlValue::Text(s) => Ok(s.clone()),
        _ => Err(MappingError::TypeMismatch),
    }
}

pub fn read_opt_text(v: &SqlValue) -> (r: Result<Option<String>, MappingError>)
    ensures
        match r {
            Ok(Some(s)) => col_opt_text(v@) == Ok::<Option<Seq<char>>, MappingError>(Some(s@)),
            Ok(None) => col_opt_text(v@) == Ok::<Option<Seq<char>>, MappingError>(None),
            Err(e) => col_opt_text(v@) == Err::<Option<Seq<char>>, MappingError>(e),
        },
{
    match v {
        SqlValue::Null => Ok(None),
        SqlValue::Text(s) => Ok(Some(s.clone())),
        _ => Err(MappingError::TypeMismatch),
    }
}

pub fn read_opt_i64(v: &SqlValue) -> (r: Result<Option<i64>, MappingError>)
    ensures
        r == col_opt_i64(v@),
{
    match v {
        SqlValue::Null => Ok(None),
        SqlValue::Integer(i) => Ok(Some(*i)),
        _ => Err(MappingError::TypeMismatch),
    }
}

pub fn read_u8(v: &SqlValue) -> (r: Result<u8, MappingError>)
    ensures
        match r {
            Ok(x) => col_unsigned(v@, u8::MAX as int) == Ok::<int, MappingError>(x as int),
            Err(e) => col_unsigned(v@, u8::MAX as int) == Err::<int, MappingError>(e),
        },
{
    match v {
        SqlValue::Integer(i) => if 0 <= *i && *i <= u8::MAX as i64 {
            Ok(*i as u8)
        } else {
            Err(MappingError::TypeMismatch)
        },
        _ => Err(MappingError::TypeMismatch),
    }
}

pub fn read_u16(v: &SqlValue) -> (r: Result<u16, MappingError>)
    ensures
        match r {
            Ok(x) => col_unsigned(v@, u16::MAX as int) == Ok::<int, MappingError>(x as int),
            Err(e) => col_unsigned(v@, u16::MAX as int) == Err::<int, MappingError>(e),
        },
{
    match v {
        SqlValue::Integer(i) => if 0 <= *i && *i <= u16::MAX as i64 {
            Ok(*i as u16)
        } else {
            Err(MappingError::TypeMismatch)
        },
        _ => Err(MappingError::TypeMismatch),
    }
}

pub fn read_u64(v: &SqlValue) -> (r: Result<u64, MappingError>)
    ensures
        match r {
            Ok(x) => col_unsigned(v@, u64::MAX as int) == Ok::<int, MappingError>(x as int),
            Err(e) => col_unsigned(v@, u64::MAX as int) == Err::<int, MappingError>(e),
        },
{
    match v {
        SqlValue::Integer(i) => if 0 <= *i {
            Ok(*i as u64)
        } else {
            Err(MappingError::TypeMismatch)
        },
        _ => Err(MappingError::TypeMismatch),
    }
}

pub fn read_bool(v: &SqlValue) -> (r: Result<bool, MappingError>)
    ensures
        r == col_bool(v@),
{
    match v {
        SqlValue::Integer(i) => Ok(*i != 0),
        _ => Err(MappingError::TypeMismatch),
    }
}

pub fn opt_i64_value(x: Option<i64>) -> (r: SqlValue)
    ensures
        r@ == (match x {
            Some(i) => Value::Integer(i),
            None => Value::Null,
        }),
{
    match x {
        Some(i) => SqlValue::Integer(i),
        None => SqlValue::Null,
    }
}

pub fn text_value(s: &String) -> (r: SqlValue)
    ensures
        r@ == Value::Text(s@),
{
    SqlValue::Text(s.clone())
}

} // verus!
