//! The values of material parameters and the words that they are packed
//! into, as their types say.
//!
//! Every scalar is one 32-bit word: a float its bit pattern, an unsigned
//! integer itself, a signed integer its two's complement. A vector is its
//! floats, and an array its elements, one behind the other without padding:
//! in a scalar layout every type here is aligned to a word.

use crate::render::words::{is_native_image, native_bytes};
use crate::scene::shader_type::ShaderType;
use crate::scene::value::Value;
use vstd::prelude::*;

verus! {

/// Why a value is not of its type.
#[derive(Clone, Copy, Debug, PartialEq, Eq, Structural)]
pub enum FieldError {
    /// A float is wanted, and the value is no number.
    ExpectedNumber,
    /// A vector of three floats is wanted, and the value is no list of
    /// three.
    ExpectedVec3,
    /// A vector of two floats is wanted, and the value is no list of two.
    ExpectedVec2,
    /// An integer is wanted, and the value is none.
    ExpectedInteger,
    /// The integer does not fit its type.
    OutOfRange,
    /// An array is wanted, and the value is no list.
    ExpectedArray,
}

/// The float of a number, as a bit pattern.
pub open spec fn float_of(field: Value) -> Result<u32, FieldError> {
    match field {
        Value::Integer { value, float } => Ok(float),
        Value::Float(float) => Ok(float),
        _ => Err(FieldError::ExpectedNumber),
    }
}

/// The floats of the first `n` of `values`.
pub open spec fn floats_of(values: Seq<Value>, n: int) -> Result<Seq<u32>, FieldError>
    decreases n,
{
    if n <= 0 {
        Ok(Seq::empty())
    } else {
        match floats_of(values, n - 1) {
            Err(e) => Err(e),
            Ok(front) => match float_of(values[n - 1]) {
                Ok(float) => Ok(front.push(float)),
                Err(e) => Err(e),
            },
        }
    }
}

/// The floats of a vector of `n` floats; `mismatch` where the value is no
/// list of `n`.
pub open spec fn vector_words(field: Value, n: int, mismatch: FieldError) -> Result<
    Seq<u32>,
    FieldError,
> {
    match field {
        Value::Array(values) => if values@.len() == n {
            floats_of(values@, n)
        } else {
            Err(mismatch)
        },
        _ => Err(mismatch),
    }
}

/// The word of an integer of the type `uint`, or of the type `int` where
/// `signed`.
pub open spec fn integer_word(field: Value, signed: bool) -> Result<Seq<u32>, FieldError> {
    match field {
        Value::Integer { value, float } => if signed {
            if i32::MIN <= value <= i32::MAX {
                Ok(seq![(value as i32) as u32])
            } else {
                Err(FieldError::OutOfRange)
            }
        } else {
            if 0 <= value <= u32::MAX {
                Ok(seq![value as u32])
            } else {
                Err(FieldError::OutOfRange)
            }
        },
        _ => Err(FieldError::ExpectedInteger),
    }
}

/// The words of a value of the type `ty`, or the first fault of the value.
/// The size that is written for an array is not held against the number of
/// its elements.
pub open spec fn field_words(field: Value, ty: ShaderType) -> Result<Seq<u32>, FieldError>
    decreases ty, 0int,
{
    match ty {
        ShaderType::Float => match float_of(field) {
            Ok(float) => Ok(seq![float]),
            Err(e) => Err(e),
        },
        ShaderType::Vec3 => vector_words(field, 3, FieldError::ExpectedVec3),
        ShaderType::Vec2 => vector_words(field, 2, FieldError::ExpectedVec2),
        ShaderType::UInt => integer_word(field, false),
        ShaderType::Int => integer_word(field, true),
        ShaderType::Array(element, _) => match field {
            Value::Array(values) => elements_words(values@, *element, values@.len() as int),
            _ => Err(FieldError::ExpectedArray),
        },
    }
}

/// The words of the first `n` of `values`, each of the type `ty`.
pub open spec fn elements_words(values: Seq<Value>, ty: ShaderType, n: int) -> Result<
    Seq<u32>,
    FieldError,
>
    decreases ty, n,
{
    if n <= 0 {
        Ok(Seq::empty())
    } else {
        match elements_words(values, ty, n - 1) {
            Err(e) => Err(e),
            Ok(front) => match field_words(values[n - 1], ty) {
                Ok(words) => Ok(front + words),
                Err(e) => Err(e),
            },
        }
    }
}

/// Whether `result` is `before` with the words `words` behind it, or the
/// fault of `words`.
pub open spec fn is_appended(
    before: Seq<u32>,
    after: Seq<u32>,
    words: Result<Seq<u32>, FieldError>,
    result: Result<(), FieldError>,
) -> bool {
    match words {
        Ok(w) => result is Ok && after == before + w,
        Err(e) => result == Err::<(), FieldError>(e),
    }
}

/// Appends the float of a number.
fn push_float(field: &Value, words: &mut Vec<u32>) -> (result: Result<(), FieldError>)
    ensures
        match float_of(*field) {
            Ok(float) => result is Ok && final(words)@ == old(words)@.push(float),
            Err(e) => result == Err::<(), FieldError>(e),
        },
{
    match field {
        Value::Integer { value: _, float } => {
            words.push(*float);
            Ok(())
        },
        Value::Float(float) => {
            words.push(*float);
            Ok(())
        },
        _ => Err(FieldError::ExpectedNumber),
    }
}

/// Appends the floats of a vector of `n` floats.
fn push_vector(field: &Value, n: usize, mismatch: FieldError, words: &mut Vec<u32>) -> (result:
    Result<(), FieldError>)
    ensures
        is_appended(old(words)@, final(words)@, vector_words(*field, n as int, mismatch), result),
{
    match field {
        Value::Array(values) => {
            if values.len() != n {
                return Err(mismatch);
            }
            let ghost before = words@;
            let mut i: usize = 0;
            while i < n
                invariant
                    i <= n,
                    values@.len() == n,
                    vector_words(*field, n as int, mismatch) == floats_of(values@, n as int),
                    floats_of(values@, i as int) is Ok,
                    words@ == before + floats_of(values@, i as int)->Ok_0,
                decreases n - i,
            {
                let ghost front = floats_of(values@, i as int)->Ok_0;
                match push_float(&values[i], words) {
                    Ok(()) => {},
                    Err(e) => {
                        proof {
                            lemma_floats_fault(values@, i + 1, n as int);
                        }
                        return Err(e);
                    },
                }
                assert(words@ =~= before + front.push(float_of(values@[i as int])->Ok_0));
                i += 1;
            }
            Ok(())
        },
        _ => Err(mismatch),
    }
}

/// A fault among the first floats is the fault of all.
pub proof fn lemma_floats_fault(values: Seq<Value>, some: int, all: int)
    requires
        0 <= some <= all,
        floats_of(values, some) is Err,
    ensures
        floats_of(values, all) == floats_of(values, some),
    decreases all - some,
{
    if some < all {
        lemma_floats_fault(values, some, all - 1);
    }
}

/// A fault among the first elements is the fault of all.
pub proof fn lemma_elements_fault(values: Seq<Value>, ty: ShaderType, some: int, all: int)
    requires
        0 <= some <= all,
        elements_words(values, ty, some) is Err,
    ensures
        elements_words(values, ty, all) == elements_words(values, ty, some),
    decreases all - some,
{
    if some < all {
        lemma_elements_fault(values, ty, some, all - 1);
    }
}

/// Appends the word of an integer.
fn push_integer(field: &Value, signed: bool, words: &mut Vec<u32>) -> (result: Result<
    (),
    FieldError,
>)
    ensures
        is_appended(old(words)@, final(words)@, integer_word(*field, signed), result),
{
    match field {
        Value::Integer { value, float: _ } => {
            let value: i64 = *value;
            if signed {
                if value < i32::MIN as i64 || value > i32::MAX as i64 {
                    return Err(FieldError::OutOfRange);
                }
                let narrow: i32 = value as i32;
                let word: u32 = #[verifier::truncate]
                (narrow as u32);
                words.push(word);
                assert(words@ =~= old(words)@ + seq![(value as i32) as u32]);
            } else {
                if value < 0 || value > u32::MAX as i64 {
                    return Err(FieldError::OutOfRange);
                }
                words.push(value as u32);
                assert(words@ =~= old(words)@ + seq![value as u32]);
            }
            Ok(())
        },
        _ => Err(FieldError::ExpectedInteger),
    }
}

/// Appends the words of a value of the type `ty`.
fn push_field(field: &Value, ty: &ShaderType, words: &mut Vec<u32>) -> (result: Result<
    (),
    FieldError,
>)
    ensures
        is_appended(old(words)@, final(words)@, field_words(*field, *ty), result),
    decreases ty,
{
    match ty {
        ShaderType::Float => {
            let result = push_float(field, words);
            proof {
                if float_of(*field) is Ok {
                    assert(old(words)@.push(float_of(*field)->Ok_0) =~= old(words)@
                        + seq![float_of(*field)->Ok_0]);
                }
            }
            result
        },
        ShaderType::Vec3 => push_vector(field, 3, FieldError::ExpectedVec3, words),
        ShaderType::Vec2 => push_vector(field, 2, FieldError::ExpectedVec2, words),
        ShaderType::UInt => push_integer(field, false, words),
        ShaderType::Int => push_integer(field, true, words),
        ShaderType::Array(element, size) => {
            match field {
                Value::Array(values) => {
                    let ghost before = words@;
                    let n: usize = values.len();
                    let mut i: usize = 0;
                    while i < n
                        invariant
                            i <= n,
                            n == values@.len(),
                            *ty == ShaderType::Array(*element, *size),
                            field_words(*field, *ty) == elements_words(
                                values@,
                                **element,
                                n as int,
                            ),
                            elements_words(values@, **element, i as int) is Ok,
                            words@ == before + elements_words(values@, **element, i as int)->Ok_0,
                        decreases n - i,
                    {
                        let ghost front = elements_words(values@, **element, i as int)->Ok_0;
                        let ghost now = words@;
                        match push_field(&values[i], element, words) {
                            Ok(()) => {},
                            Err(e) => {
                                proof {
                                    lemma_elements_fault(values@, **element, i + 1, n as int);
                                }
                                return Err(e);
                            },
                        }
                        assert(words@ =~= before + (front + field_words(
                            values@[i as int],
                            **element,
                        )->Ok_0));
                        i += 1;
                    }
                    Ok(())
                },
                _ => Err(FieldError::ExpectedArray),
            }
        },
    }
}

/// The words of a value of the type `ty`.
pub fn parse_field_words(field: &Value, ty: &ShaderType) -> (words: Result<
    Vec<u32>,
    FieldError,
>)
    ensures
        match words {
            Ok(w) => field_words(*field, *ty) == Ok::<Seq<u32>, FieldError>(w@),
            Err(e) => field_words(*field, *ty) == Err::<Seq<u32>, FieldError>(e),
        },
{
    let mut words: Vec<u32> = Vec::new();
    match push_field(field, ty, &mut words) {
        Ok(()) => {
            assert(Seq::<u32>::empty() + field_words(*field, *ty)->Ok_0 =~= field_words(
                *field,
                *ty,
            )->Ok_0);
            Ok(words)
        },
        Err(e) => Err(e),
    }
}

/// The bytes of a value of the type `ty`: its words in the byte order of the
/// host.
pub fn parse_toml_field(field: &Value, ty: &ShaderType) -> (bytes: Result<Vec<u8>, FieldError>)
    ensures
        match bytes {
            Ok(b) => field_words(*field, *ty) is Ok && is_native_image(
                b@,
                field_words(*field, *ty)->Ok_0,
            ),
            Err(e) => field_words(*field, *ty) == Err::<Seq<u32>, FieldError>(e),
        },
{
    match parse_field_words(field, ty) {
        Ok(words) => Ok(native_bytes(words.as_slice())),
        Err(e) => Err(e),
    }
}

} // verus!
