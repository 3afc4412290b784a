//! The lines of a transform script, such as `translate 1 0 0` or
//! `rotate 90 0 0 1`.
//!
//! A line names an action and gives its numbers, separated by white space.
//! A line that is empty or starts with `#` says nothing. The numbers are
//! handed on as they are written: what float a text writes is for the caller
//! to say.

use crate::scene::type_lexer::{
    is_whitespace, run_len, same_text, scan_run, CharClass,
};
use vstd::prelude::*;

verus! {

/// What a line of a transform script does.
#[derive(Clone, Copy, Debug, PartialEq, Eq, Structural)]
pub enum TransformAction {
    /// Starts over from the identity.
    Identity,
    /// Moves by a vector.
    Translate,
    /// Turns by an angle in degrees round an axis.
    Rotate,
    /// Scales along the axes.
    Scale,
    /// Looks from an eye to a centre, with an up vector; replaces all that
    /// came before.
    LookAt,
}

/// Why a line is no line of a transform script.
#[derive(Clone, Copy, Debug, PartialEq, Eq, Structural)]
pub enum TransformError {
    /// The action has fewer numbers than it takes.
    MissingNumber(TransformAction),
    /// The action has more numbers than it takes.
    ExtraInfo(TransformAction),
    /// The line names no action.
    InvalidAction,
}

/// A line of a transform script: its action, and its numbers as they are
/// written.
#[derive(Debug, PartialEq, Eq)]
pub struct TransformStep<'a> {
    pub action: TransformAction,
    pub numbers: Vec<&'a str>,
}

/// A line of a transform script as the contracts see it.
pub ghost struct StepValue {
    pub action: TransformAction,
    pub numbers: Seq<Seq<char>>,
}

impl<'a> View for TransformStep<'a> {
    type V = StepValue;

    open spec fn view(&self) -> StepValue {
        StepValue { action: self.action, numbers: self.numbers@.map_values(|t: &'a str| t@) }
    }
}

impl TransformAction {
    /// How many numbers the action takes.
    pub open spec fn arity(self) -> nat {
        match self {
            TransformAction::Identity => 0,
            TransformAction::Translate => 3,
            TransformAction::Rotate => 4,
            TransformAction::Scale => 3,
            TransformAction::LookAt => 9,
        }
    }

    /// How many numbers the action takes.
    pub fn number_count(self) -> (count: usize)
        ensures
            count == self.arity(),
    {
        match self {
            TransformAction::Identity => 0,
            TransformAction::Translate => 3,
            TransformAction::Rotate => 4,
            TransformAction::Scale => 3,
            TransformAction::LookAt => 9,
        }
    }
}

/// The action that `name` names.
pub open spec fn action_of(name: Seq<char>) -> Option<TransformAction> {
    if name == "identity"@ {
        Some(TransformAction::Identity)
    } else if name == "translate"@ {
        Some(TransformAction::Translate)
    } else if name == "rotate"@ {
        Some(TransformAction::Rotate)
    } else if name == "scale"@ {
        Some(TransformAction::Scale)
    } else if name == "lookat"@ {
        Some(TransformAction::LookAt)
    } else {
        None
    }
}

/// Length of the longest suffix of `s` that is white space.
pub open spec fn trailing_space(s: Seq<char>) -> nat
    decreases s.len(),
{
    if s.len() > 0 && is_whitespace(s.last()) {
        1 + trailing_space(s.drop_last())
    } else {
        0
    }
}

/// `s` without the white space at its ends.
pub open spec fn trim(s: Seq<char>) -> Seq<char> {
    let start = run_len(s, CharClass::Space) as int;
    let rest = s.skip(start);
    rest.take(rest.len() - trailing_space(rest))
}

/// The texts of `s` that ASCII white space separates, in their order.
pub open spec fn tokens_of(s: Seq<char>) -> Seq<Seq<char>>
    decreases s.len(),
{
    let space = run_len(s, CharClass::AsciiSpace) as int;
    let rest = s.skip(space);
    let n = run_len(rest, CharClass::Text) as int;
    if space <= s.len() && 0 < n <= rest.len() {
        seq![rest.take(n)] + tokens_of(rest.skip(n))
    } else {
        Seq::empty()
    }
}

/// What a line says: nothing, a step, or why it is no line of a script. The
/// identity takes no numbers and is not held to it.
pub open spec fn line_step(line: Seq<char>) -> Result<Option<StepValue>, TransformError> {
    let tokens = tokens_of(trim(line));
    if tokens.len() == 0 || (tokens[0].len() > 0 && tokens[0][0] == '#') {
        Ok(None)
    } else {
        let numbers = tokens.skip(1);
        match action_of(tokens[0]) {
            None => Err(TransformError::InvalidAction),
            Some(TransformAction::Identity) => Ok(
                Some(StepValue { action: TransformAction::Identity, numbers: Seq::empty() }),
            ),
            Some(action) => if numbers.len() < action.arity() {
                Err(TransformError::MissingNumber(action))
            } else if numbers.len() > action.arity() {
                Err(TransformError::ExtraInfo(action))
            } else {
                Ok(Some(StepValue { action, numbers }))
            },
        }
    }
}

/// White space at the end is as long as the first character from the end
/// that is none is far.
pub proof fn lemma_trailing_space(s: Seq<char>, n: int)
    requires
        0 <= n <= s.len(),
        forall|i: int| s.len() - n <= i < s.len() ==> is_whitespace(#[trigger] s[i]),
        n == s.len() || !is_whitespace(s[s.len() - n - 1]),
    ensures
        trailing_space(s) == n,
    decreases n,
{
    if n > 0 {
        let front = s.drop_last();
        assert forall|i: int| front.len() - (n - 1) <= i < front.len() implies is_whitespace(
            #[trigger] front[i],
        ) by {
            assert(front[i] == s[i]);
        }
        lemma_trailing_space(front, n - 1);
    }
}

/// `s` without the white space at its ends.
pub fn trim_text<'a>(s: &'a str) -> (trimmed: &'a str)
    ensures
        trimmed@ == trim(s@),
{
    let start: usize = scan_run(s, CharClass::Space);
    let len: usize = s.unicode_len();
    let rest = s.substring_char(start, len);
    assert(s@.subrange(start as int, len as int) =~= s@.skip(start as int));
    let n: usize = len - start;
    let mut end: usize = n;
    while end > 0 && CharClass::Space.test(rest.get_char(end - 1))
        invariant
            end <= n,
            n == rest@.len(),
            forall|i: int| end <= i < n ==> is_whitespace(#[trigger] rest@[i]),
        decreases end,
    {
        end -= 1;
    }
    proof {
        lemma_trailing_space(rest@, n - end);
    }
    let trimmed = rest.substring_char(0, end);
    assert(rest@.subrange(0, end as int) =~= rest@.take(end as int));
    trimmed
}

/// The texts of `s` that ASCII white space separates, in their order.
pub fn split_ascii_whitespace<'a>(s: &'a str) -> (tokens: Vec<&'a str>)
    ensures
        tokens@.map_values(|t: &'a str| t@) == tokens_of(s@),
{
    let mut tokens: Vec<&'a str> = Vec::new();
    let mut rest: &'a str = s;
    loop
        invariant_except_break
            tokens_of(s@) == tokens@.map_values(|t: &'a str| t@) + tokens_of(rest@),
        ensures
            tokens_of(s@) == tokens@.map_values(|t: &'a str| t@),
        decreases rest@.len(),
    {
        let ghost before = rest@;
        let ghost taken = tokens@.map_values(|t: &'a str| t@);
        let len: usize = rest.unicode_len();
        let skip: usize = scan_run(rest, CharClass::AsciiSpace);
        let text = rest.substring_char(skip, len);
        assert(before.subrange(skip as int, len as int) =~= before.skip(skip as int));
        let n: usize = scan_run(text, CharClass::Text);
        if n == 0 {
            assert(taken + Seq::<Seq<char>>::empty() =~= taken);
            break ;
        }
        let token = text.substring_char(0, n);
        assert(text@.subrange(0, n as int) =~= text@.take(n as int));
        rest = text.substring_char(n, len - skip);
        assert(text@.subrange(n as int, (len - skip) as int) =~= text@.skip(n as int));
        tokens.push(token);
        assert(tokens@.map_values(|t: &'a str| t@) =~= taken + seq![token@]);
        assert(taken + (seq![token@] + tokens_of(rest@)) =~= (taken + seq![token@]) + tokens_of(
            rest@,
        ));
    }
    tokens
}

/// The action that `name` names.
pub fn parse_action(name: &str) -> (action: Option<TransformAction>)
    ensures
        action == action_of(name@),
{
    if same_text(name, "identity") {
        Some(TransformAction::Identity)
    } else if same_text(name, "translate") {
        Some(TransformAction::Translate)
    } else if same_text(name, "rotate") {
        Some(TransformAction::Rotate)
    } else if same_text(name, "scale") {
        Some(TransformAction::Scale)
    } else if same_text(name, "lookat") {
        Some(TransformAction::LookAt)
    } else {
        None
    }
}

/// Reads one line of a transform script.
pub fn parse_transform_line<'a>(line: &'a str) -> (step: Result<
    Option<TransformStep<'a>>,
    TransformError,
>)
    ensures
        match step {
            Ok(Some(s)) => line_step(line@) == Ok::<Option<StepValue>, TransformError>(Some(s@)),
            Ok(None) => line_step(line@) == Ok::<Option<StepValue>, TransformError>(None),
            Err(e) => line_step(line@) == Err::<Option<StepValue>, TransformError>(e),
        },
{
    let mut tokens = split_ascii_whitespace(trim_text(line));
    let ghost all = tokens@.map_values(|t: &'a str| t@);
    if tokens.len() == 0 {
        return Ok(None);
    }
    let name: &'a str = tokens[0];
    assert(all[0] == name@);
    if name.unicode_len() > 0 && name.get_char(0) == '#' {
        return Ok(None);
    }
    let action = match parse_action(name) {
        Some(a) => a,
        None => {
            return Err(TransformError::InvalidAction);
        },
    };
    match action {
        TransformAction::Identity => {
            let step = TransformStep { action, numbers: Vec::new() };
            assert(step@.numbers =~= Seq::<Seq<char>>::empty());
            return Ok(Some(step));
        },
        _ => {},
    }
    let given: usize = tokens.len() - 1;
    if given < action.number_count() {
        return Err(TransformError::MissingNumber(action));
    }
    if given > action.number_count() {
        return Err(TransformError::ExtraInfo(action));
    }
    let _ = tokens.remove(0);
    assert(tokens@.map_values(|t: &'a str| t@) =~= all.skip(1));
    Ok(Some(TransformStep { action, numbers: tokens }))
}

} // verus!
