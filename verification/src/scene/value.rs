//! The values of a scene file: texts, numbers, lists and tables.
//!
//! A number comes with the float that is nearest to it, as a bit pattern.
//! A table is the list of its entries in the order of the file; no key
//! comes twice.

use crate::scene::scenes::mesh::Vec3;
use crate::scene::type_lexer::same_text;
use vstd::prelude::*;

verus! {

/// A value of a scene file.
#[derive(Debug, PartialEq, Eq)]
pub enum Value {
    /// A text.
    String(String),
    /// An integer, and the float nearest to it.
    Integer { value: i64, float: u32 },
    /// A float.
    Float(u32),
    /// Yes or no.
    Boolean(bool),
    /// A list of values.
    Array(Vec<Value>),
    /// A table: keys and their values.
    Table(Vec<(String, Value)>),
    /// Anything else.
    Other,
}

/// What a value was wanted as and is not.
#[derive(Clone, Copy, Debug, PartialEq, Eq, Structural)]
pub enum Wanted {
    /// The table has no such key.
    Present,
    /// A list.
    Array,
    /// A text.
    String,
    /// A table.
    Table,
    /// A number.
    Number,
    /// An integer.
    Integer,
    /// A list of six numbers.
    Six,
    /// A list of three numbers, and the list holds this many values; four
    /// stands for any greater number.
    Three(usize),
}

/// Index of the first entry of `table`, from `from` on, that has the key
/// `key`.
pub open spec fn find_key(table: Seq<(String, Value)>, key: Seq<char>, from: int) -> Option<int>
    decreases table.len() - from,
{
    if from < 0 || from >= table.len() {
        None
    } else if table[from].0@ == key {
        Some(from)
    } else {
        find_key(table, key, from + 1)
    }
}

/// The value of the key `key` in `table`.
pub open spec fn field_of(table: Seq<(String, Value)>, key: Seq<char>) -> Option<Value> {
    match find_key(table, key, 0) {
        Some(i) => Some(table[i].1),
        None => None,
    }
}

/// The value of the key `field` in `table`.
pub fn get_field<'a>(table: &'a [(String, Value)], field: &str) -> (value: Option<&'a Value>)
    ensures
        match value {
            Some(v) => field_of(table@, field@) == Some(*v),
            None => field_of(table@, field@) is None,
        },
{
    let mut i: usize = 0;
    while i < table.len()
        invariant
            i <= table@.len(),
            find_key(table@, field@, 0) == find_key(table@, field@, i as int),
        decreases table@.len() - i,
    {
        if same_text(table[i].0.as_str(), field) {
            return Some(&table[i].1);
        }
        i += 1;
    }
    None
}

/// A value as a list, a text or a table, or what it was wanted as.
pub open spec fn as_array(value: Option<Value>) -> Result<Seq<Value>, Wanted> {
    match value {
        None => Err(Wanted::Present),
        Some(Value::Array(values)) => Ok(values@),
        Some(_) => Err(Wanted::Array),
    }
}

/// The text of a value that is one.
pub open spec fn as_string(value: Option<Value>) -> Result<Seq<char>, Wanted> {
    match value {
        None => Err(Wanted::Present),
        Some(Value::String(text)) => Ok(text@),
        Some(_) => Err(Wanted::String),
    }
}

/// The entries of a value that is a table.
pub open spec fn as_table(value: Option<Value>) -> Result<Seq<(String, Value)>, Wanted> {
    match value {
        None => Err(Wanted::Present),
        Some(Value::Table(entries)) => Ok(entries@),
        Some(_) => Err(Wanted::Table),
    }
}

/// The list at the key `field` of `table`.
pub fn get_array<'a>(table: &'a [(String, Value)], field: &str) -> (values: Result<
    &'a Vec<Value>,
    Wanted,
>)
    ensures
        match values {
            Ok(v) => as_array(field_of(table@, field@)) == Ok::<Seq<Value>, Wanted>(v@),
            Err(e) => as_array(field_of(table@, field@)) == Err::<Seq<Value>, Wanted>(e),
        },
{
    match get_field(table, field) {
        None => Err(Wanted::Present),
        Some(Value::Array(values)) => Ok(values),
        Some(_) => Err(Wanted::Array),
    }
}

/// The text at the key `field` of `table`.
pub fn get_string<'a>(table: &'a [(String, Value)], field: &str) -> (text: Result<
    &'a String,
    Wanted,
>)
    ensures
        match text {
            Ok(t) => as_string(field_of(table@, field@)) == Ok::<Seq<char>, Wanted>(t@),
            Err(e) => as_string(field_of(table@, field@)) == Err::<Seq<char>, Wanted>(e),
        },
{
    match get_field(table, field) {
        None => Err(Wanted::Present),
        Some(Value::String(text)) => Ok(text),
        Some(_) => Err(Wanted::String),
    }
}

/// The table at the key `field` of `table`.
pub fn get_table<'a>(table: &'a [(String, Value)], field: &str) -> (entries: Result<
    &'a Vec<(String, Value)>,
    Wanted,
>)
    ensures
        match entries {
            Ok(t) => as_table(field_of(table@, field@)) == Ok::<Seq<(String, Value)>, Wanted>(t@),
            Err(e) => as_table(field_of(table@, field@)) == Err::<Seq<(String, Value)>, Wanted>(
                e,
            ),
        },
{
    match get_field(table, field) {
        None => Err(Wanted::Present),
        Some(Value::Table(entries)) => Ok(entries),
        Some(_) => Err(Wanted::Table),
    }
}

/// The float of a number, as a bit pattern.
pub open spec fn number_of(value: Value) -> Result<u32, Wanted> {
    match value {
        Value::Integer { value, float } => Ok(float),
        Value::Float(float) => Ok(float),
        _ => Err(Wanted::Number),
    }
}

/// The float of a number, as a bit pattern.
pub fn parse_toml_f32(value: &Value) -> (float: Result<u32, Wanted>)
    ensures
        float == number_of(*value),
{
    match value {
        Value::Integer { value: _, float } => Ok(*float),
        Value::Float(float) => Ok(*float),
        _ => Err(Wanted::Number),
    }
}

/// The vector that a list of three numbers writes. A list that is too short
/// is found out at the number that is missing, after the numbers before it
/// were read; a list that is too long after its three numbers were read.
pub open spec fn vec3_of(value: Value) -> Result<Vec3, Wanted> {
    match value {
        Value::Array(values) => {
            let v = values@;
            if v.len() == 0 {
                Err(Wanted::Three(0))
            } else if number_of(v[0]) is Err {
                Err(Wanted::Number)
            } else if v.len() == 1 {
                Err(Wanted::Three(1))
            } else if number_of(v[1]) is Err {
                Err(Wanted::Number)
            } else if v.len() == 2 {
                Err(Wanted::Three(2))
            } else if number_of(v[2]) is Err {
                Err(Wanted::Number)
            } else if v.len() > 3 {
                Err(Wanted::Three(4))
            } else {
                Ok(
                    Vec3 {
                        x: number_of(v[0])->Ok_0,
                        y: number_of(v[1])->Ok_0,
                        z: number_of(v[2])->Ok_0,
                    },
                )
            }
        },
        _ => Err(Wanted::Array),
    }
}

/// The vector that a list of three numbers writes.
pub fn parse_toml_vec3(value: &Value) -> (vector: Result<Vec3, Wanted>)
    ensures
        vector == vec3_of(*value),
{
    let values = match value {
        Value::Array(values) => values,
        _ => {
            return Err(Wanted::Array);
        },
    };
    if values.len() == 0 {
        return Err(Wanted::Three(0));
    }
    let x = match parse_toml_f32(&values[0]) {
        Ok(x) => x,
        Err(e) => {
            return Err(e);
        },
    };
    if values.len() == 1 {
        return Err(Wanted::Three(1));
    }
    let y = match parse_toml_f32(&values[1]) {
        Ok(y) => y,
        Err(e) => {
            return Err(e);
        },
    };
    if values.len() == 2 {
        return Err(Wanted::Three(2));
    }
    let z = match parse_toml_f32(&values[2]) {
        Ok(z) => z,
        Err(e) => {
            return Err(e);
        },
    };
    if values.len() > 3 {
        return Err(Wanted::Three(4));
    }
    Ok(Vec3 { x, y, z })
}

} // verus!
