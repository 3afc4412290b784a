//! The types of material parameters: `float`, `int`, `uint`, `vec2`, `vec3`
//! and arrays of a type, written `[type; size]`.
//!
//! A type is read from the front of a text. What follows it is not looked
//! at.

use crate::scene::type_lexer::{
    lemma_lex_step_shortens, lex_step, same_text, LexError, Token, TokenIter, TokenValue,
};
use vstd::prelude::*;

verus! {

/// The type of a material parameter.
#[derive(Debug, PartialEq, Eq)]
pub enum ShaderType {
    Float,
    Vec3,
    Vec2,
    UInt,
    Int,
    /// An array of a type and the size that was written for it.
    Array(Box<ShaderType>, u64),
}

/// Why a text is no type.
#[derive(Clone, Copy, Debug, PartialEq, Eq, Structural)]
pub enum TypeError {
    /// The text ends before the type does.
    Incomplete,
    /// A type starts with a number, a semicolon or a closing bracket.
    UnexpectedToken,
    /// The text holds what is no token.
    Lexer(LexError),
    /// The name is not the name of a type.
    UnknownTypename,
    /// No semicolon follows the type of the elements of an array.
    MissingSemicolon,
    /// No number follows the semicolon of an array.
    MissingSize,
    /// No closing bracket follows the size of an array.
    MissingBracket,
}

/// What reading a type comes to: the type or the fault, and, behind a type,
/// the text that is left.
pub ghost struct Parsed {
    pub result: Result<ShaderType, TypeError>,
    pub rest: Seq<char>,
}

/// The type that `name` names.
pub open spec fn simple_type(name: Seq<char>) -> Result<ShaderType, TypeError> {
    if name == "float"@ {
        Ok(ShaderType::Float)
    } else if name == "int"@ {
        Ok(ShaderType::Int)
    } else if name == "uint"@ {
        Ok(ShaderType::UInt)
    } else if name == "vec3"@ {
        Ok(ShaderType::Vec3)
    } else if name == "vec2"@ {
        Ok(ShaderType::Vec2)
    } else {
        Err(TypeError::UnknownTypename)
    }
}

/// The fault that the token `found` is where another was expected; `missing`
/// where it is a token of another kind.
pub open spec fn fault_at(found: Option<TokenValue>, missing: TypeError) -> TypeError {
    match found {
        None => TypeError::Incomplete,
        Some(TokenValue::LexerError(e)) => TypeError::Lexer(e),
        Some(_) => missing,
    }
}

/// What follows the type `element` of the elements of an array: a
/// semicolon, the size and the closing bracket.
pub open spec fn array_tail(element: ShaderType, s: Seq<char>) -> Parsed {
    let semicolon = lex_step(s);
    let size = lex_step(semicolon.rest);
    let bracket = lex_step(size.rest);
    if !(semicolon.token == Some(TokenValue::Semicolon)) {
        Parsed { result: Err(fault_at(semicolon.token, TypeError::MissingSemicolon)), rest: s }
    } else if !(size.token matches Some(TokenValue::Integer(_))) {
        Parsed { result: Err(fault_at(size.token, TypeError::MissingSize)), rest: s }
    } else if !(bracket.token == Some(TokenValue::RSqBracket)) {
        Parsed { result: Err(fault_at(bracket.token, TypeError::MissingBracket)), rest: s }
    } else {
        Parsed {
            result: Ok(ShaderType::Array(Box::new(element), size.token->0->Integer_0)),
            rest: bracket.rest,
        }
    }
}

/// The type that `s` starts with.
pub open spec fn parse_type_spec(s: Seq<char>) -> Parsed
    decreases s.len(),
{
    let first = lex_step(s);
    match first.token {
        Some(TokenValue::LSqBracket) => {
            if first.rest.len() < s.len() {
                let element = parse_type_spec(first.rest);
                match element.result {
                    Ok(t) => array_tail(t, element.rest),
                    Err(e) => Parsed { result: Err(e), rest: s },
                }
            } else {
                Parsed { result: Err(TypeError::Incomplete), rest: s }
            }
        },
        Some(TokenValue::Typename(name)) => Parsed { result: simple_type(name), rest: first.rest },
        found => Parsed { result: Err(fault_at(found, TypeError::UnexpectedToken)), rest: s },
    }
}

/// Reading a type leaves no more text than there was.
pub proof fn lemma_parse_shortens(s: Seq<char>)
    ensures
        parse_type_spec(s).result is Ok ==> parse_type_spec(s).rest.len() < s.len(),
    decreases s.len(),
{
    let first = lex_step(s);
    lemma_lex_step_shortens(s);
    if first.token == Some(TokenValue::LSqBracket) && first.rest.len() < s.len() {
        lemma_parse_shortens(first.rest);
        let element = parse_type_spec(first.rest);
        if element.result is Ok {
            let semicolon = lex_step(element.rest);
            let size = lex_step(semicolon.rest);
            lemma_lex_step_shortens(element.rest);
            lemma_lex_step_shortens(semicolon.rest);
            lemma_lex_step_shortens(size.rest);
        }
    }
}

/// The fault that `found` is where another token was expected.
fn fault(found: &Option<Token<'_>>, missing: TypeError) -> (error: TypeError)
    ensures
        error == fault_at(
            match *found {
                Some(t) => Some(t@),
                None => None,
            },
            missing,
        ),
{
    match found {
        None => TypeError::Incomplete,
        Some(Token::LexerError(e)) => TypeError::Lexer(*e),
        Some(_) => missing,
    }
}

/// The type that `name` names.
pub fn parse_simple_type(name: &str) -> (parsed: Result<ShaderType, TypeError>)
    ensures
        parsed == simple_type(name@),
{
    if same_text(name, "float") {
        Ok(ShaderType::Float)
    } else if same_text(name, "int") {
        Ok(ShaderType::Int)
    } else if same_text(name, "uint") {
        Ok(ShaderType::UInt)
    } else if same_text(name, "vec3") {
        Ok(ShaderType::Vec3)
    } else if same_text(name, "vec2") {
        Ok(ShaderType::Vec2)
    } else {
        Err(TypeError::UnknownTypename)
    }
}

/// Reads what follows the type of the elements of an array.
fn parse_array_tail<'a>(tokens: &mut TokenIter<'a>, element: ShaderType) -> (parsed: Result<
    ShaderType,
    TypeError,
>)
    ensures
        parsed == array_tail(element, old(tokens)@).result,
        parsed is Ok ==> final(tokens)@ == array_tail(element, old(tokens)@).rest,
{
    let semicolon = tokens.next();
    match semicolon {
        Some(Token::Semicolon) => {},
        _ => {
            return Err(fault(&semicolon, TypeError::MissingSemicolon));
        },
    }
    let size = tokens.next();
    let n: u64 = match size {
        Some(Token::Integer(n)) => n,
        _ => {
            return Err(fault(&size, TypeError::MissingSize));
        },
    };
    let bracket = tokens.next();
    match bracket {
        Some(Token::RSqBracket) => {},
        _ => {
            return Err(fault(&bracket, TypeError::MissingBracket));
        },
    }
    Ok(ShaderType::Array(Box::new(element), n))
}

/// Reads the type that the tokens start with.
pub fn parse_type<'a>(tokens: &mut TokenIter<'a>) -> (parsed: Result<ShaderType, TypeError>)
    ensures
        parsed == parse_type_spec(old(tokens)@).result,
        parsed is Ok ==> final(tokens)@ == parse_type_spec(old(tokens)@).rest,
    decreases old(tokens)@.len(),
{
    proof {
        lemma_lex_step_shortens(tokens@);
    }
    let first = tokens.next();
    match first {
        Some(Token::LSqBracket) => {
            let element = match parse_type(tokens) {
                Ok(t) => t,
                Err(e) => {
                    return Err(e);
                },
            };
            parse_array_tail(tokens, element)
        },
        Some(Token::Typename(name)) => parse_simple_type(name),
        _ => Err(fault(&first, TypeError::UnexpectedToken)),
    }
}

/// Reads the type that `type_str` starts with, behind any white space.
pub fn parse_type_str(type_str: &str) -> (parsed: Result<ShaderType, TypeError>)
    ensures
        parsed == parse_type_spec(crate::scene::type_lexer::trim_start(type_str@)).result,
{
    let mut tokens = TokenIter::new(type_str);
    parse_type(&mut tokens)
}

} // verus!
