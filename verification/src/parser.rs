//! The parser of the one-line form `word r<index>, <number>`, as in
//! `addi r1, 2`.
//!
//! ```text
//! line := letter+ 'r' dec+ ',' dec+
//! ```
//!
//! White space may follow each of the four parts. Whatever stands behind the
//! line is not read.

use vstd::prelude::*;
use vstd::string::*;
use crate::asm_parser::{
    ascii_end, char_is, char_is_at, class_at, digits_value, is_digit, number, run_end, scan,
    CharClass, Failure, ParseError, ParseErrorKind, Parsed,
};

verus! {

/// An instruction of the one-line form.
#[derive(Debug, PartialEq)]
pub enum Instruction {
    /// A word, the index of a register and a number.
    Addi(String, i32, i32),
}

/// What an [`Instruction`] holds, with its word as a mathematical sequence.
pub enum InstructionView {
    Addi(Seq<char>, i32, i32),
}

impl View for Instruction {
    type V = InstructionView;

    open spec fn view(&self) -> InstructionView {
        match self {
            Instruction::Addi(word, register, number) => InstructionView::Addi(
                word@,
                *register,
                *number,
            ),
        }
    }
}

impl DeepView for Instruction {
    type V = InstructionView;

    open spec fn deep_view(&self) -> InstructionView {
        self@
    }
}

/// `dec+` at `pos` and the white space behind it: the number must not
/// exceed `i32::MAX`.
pub open spec fn number_spec(s: Seq<char>, pos: int) -> Parsed<i32> {
    if !(0 <= pos < s.len() && is_digit(s[pos])) {
        Err(Failure { position: pos, kind: ParseErrorKind::ExpectedDigit })
    } else {
        let end = run_end(s, CharClass::Digit, pos);
        if digits_value(s, false, pos, end) > i32::MAX {
            Err(Failure { position: pos, kind: ParseErrorKind::IntegerOverflow })
        } else {
            Ok((digits_value(s, false, pos, end) as i32, run_end(s, CharClass::Space, end)))
        }
    }
}

/// `line` at the start of `s`.
pub open spec fn line_spec(s: Seq<char>) -> Result<InstructionView, Failure> {
    if !(0 < s.len() && CharClass::Letter.holds(s[0])) {
        Err(Failure { position: 0, kind: ParseErrorKind::ExpectedMnemonic })
    } else {
        let end = run_end(s, CharClass::Letter, 0);
        let r = run_end(s, CharClass::Space, end);
        if !char_is(s, r, 'r') {
            Err(Failure { position: r, kind: ParseErrorKind::ExpectedRegister })
        } else {
            match number_spec(s, r + 1) {
                Err(failure) => Err(failure),
                Ok((register, comma)) => if !char_is(s, comma, ',') {
                    Err(Failure { position: comma, kind: ParseErrorKind::ExpectedComma })
                } else {
                    match number_spec(s, run_end(s, CharClass::Space, comma + 1)) {
                        Err(failure) => Err(failure),
                        Ok((number, _)) => Ok(
                            InstructionView::Addi(s.subrange(0, end), register, number),
                        ),
                    }
                },
            }
        }
    }
}

/// What the source `s` spells: a failure at its first character outside
/// ASCII if it has one, else its line alone.
pub open spec fn parse_spec(s: Seq<char>) -> Result<Seq<InstructionView>, Failure> {
    if !vstd::utf8::is_ascii_chars(s) {
        Err(Failure { position: run_end(s, CharClass::Ascii, 0), kind: ParseErrorKind::NotAscii })
    } else {
        match line_spec(s) {
            Err(failure) => Err(failure),
            Ok(instruction) => Ok(seq![instruction]),
        }
    }
}

/// The outcome of [`parse`] over mathematical sequences.
pub open spec fn parse_view(r: Result<Vec<Instruction>, ParseError>) -> Result<
    Seq<InstructionView>,
    Failure,
> {
    match r {
        Ok(instructions) => Ok(instructions.deep_view()),
        Err(e) => Err(e@),
    }
}

/// Parses `dec+` at `start` and passes the white space behind it.
fn small_number(src: &str, start: usize) -> (r: Result<(i32, usize), ParseError>)
    requires
        is_ascii(src),
        start <= src@.len(),
    ensures
        match r {
            Ok((value, next)) => number_spec(src@, start as int) == Ok::<(i32, int), Failure>(
                (value, next as int),
            ) && next <= src@.len(),
            Err(e) => number_spec(src@, start as int) == Err::<(i32, int), Failure>(e@),
        },
{
    if !class_at(src, CharClass::Digit, start) {
        return Err(ParseError { position: start, kind: ParseErrorKind::ExpectedDigit });
    }
    let end = scan(src, CharClass::Digit, start);
    match number(src, false, start, end) {
        Some(value) if value <= i32::MAX as i64 => Ok(
            (value as i32, scan(src, CharClass::Space, end)),
        ),
        _ => Err(ParseError { position: start, kind: ParseErrorKind::IntegerOverflow }),
    }
}

/// Parses the line at the start of a source.
fn instruction(src: &str) -> (r: Result<Instruction, ParseError>)
    requires
        is_ascii(src),
    ensures
        match r {
            Ok(parsed) => line_spec(src@) == Ok::<InstructionView, Failure>(parsed@),
            Err(e) => line_spec(src@) == Err::<InstructionView, Failure>(e@),
        },
{
    if !class_at(src, CharClass::Letter, 0) {
        return Err(ParseError { position: 0, kind: ParseErrorKind::ExpectedMnemonic });
    }
    let end = scan(src, CharClass::Letter, 0);
    let r = scan(src, CharClass::Space, end);
    if !char_is_at(src, r, 'r') {
        return Err(ParseError { position: r, kind: ParseErrorKind::ExpectedRegister });
    }
    let (register, comma) = match small_number(src, r + 1) {
        Ok(parsed) => parsed,
        Err(e) => {
            return Err(e);
        },
    };
    if !char_is_at(src, comma, ',') {
        return Err(ParseError { position: comma, kind: ParseErrorKind::ExpectedComma });
    }
    let (number, _) = match small_number(src, scan(src, CharClass::Space, comma + 1)) {
        Ok(parsed) => parsed,
        Err(e) => {
            return Err(e);
        },
    };
    Ok(Instruction::Addi(String::from_str(src.substring_ascii(0, end)), register, number))
}

/// Parses a source that holds one line.
pub fn parse(src: &str) -> (r: Result<Vec<Instruction>, ParseError>)
    ensures
        parse_view(r) == parse_spec(src@),
{
    if !src.is_ascii() {
        return Err(ParseError { position: ascii_end(src), kind: ParseErrorKind::NotAscii });
    }
    match instruction(src) {
        Ok(inst) => {
            let instructions = vec![inst];
            assert(instructions.deep_view() =~= seq![instructions[0]@]);
            Ok(instructions)
        },
        Err(err) => Err(err),
    }
}

} // verus!
