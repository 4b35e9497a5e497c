//! The grammar of eBPF assembly source and its parser.
//!
//! ```text
//! program      := { instruction } EOF
//! instruction  := ident [ operand { ',' operand } ]
//! ident        := alphanumeric+
//! operand      := register | memory | integer
//! register     := 'r' integer
//! memory       := '[' 'r' integer [ '+' integer ] ']'
//! integer      := [ '+' | '-' ] ( '0x' hex+ | dec+ )
//! ```
//!
//! A source is ASCII text. White space must stand between a mnemonic and
//! its first operand, and may stand around a comma, between instructions
//! and at both ends of the source; there is none inside an operand.
//!
//! The parser never goes back. It takes the longest mnemonic and the longest
//! run of digits, and the next character decides what follows: behind a
//! mnemonic and white space, `[`, a sign, a digit, or an `r` with a sign or
//! a digit behind it start the operands, and anything else ends the
//! instruction; behind an operand, a comma asks for one more. An operand is
//! a register if it starts with `r`, a memory reference if it starts with
//! `[`, and an integer otherwise. A number that does not fit in `i64` is a
//! failure, not a wrapped value.
//!
//! The grammar is stated by the `*_spec` functions over the characters of
//! the source, with positions counted in characters from 0. Each parsing
//! function returns what its `*_spec` function gives: the value and the
//! position behind it, or the place and kind of the failure.

use vstd::prelude::*;
use vstd::string::*;
use crate::text::{decimal_text, natural};

verus! {

/// One operand of an instruction.
#[derive(Clone, Copy, Debug, PartialEq, Eq, Structural)]
pub enum Operand {
    /// A register, written `r` and its index.
    Register(i64),
    /// A signed immediate.
    Integer(i64),
    /// A memory reference `[r<base>+<displacement>]`.
    Memory(i64, i64),
    /// No operand: fills the unused places of a fixed-arity operand tuple.
    Nil,
}

impl View for Operand {
    type V = Operand;

    open spec fn view(&self) -> Operand {
        *self
    }
}

/// A mnemonic with its operands, as written in the source.
#[derive(Debug, PartialEq)]
pub struct Instruction {
    pub name: String,
    pub operands: Vec<Operand>,
}

/// What an [`Instruction`] holds, as mathematical sequences.
pub struct InstructionView {
    pub name: Seq<char>,
    pub operands: Seq<Operand>,
}

impl InstructionView {
    /// Whether the name is a mnemonic as the grammar has it: letters and
    /// digits, at least one.
    pub open spec fn well_formed(self) -> bool {
        &&& self.name.len() > 0
        &&& forall|i: int|
            0 <= i < self.name.len() ==> CharClass::AlphaNum.holds(#[trigger] self.name[i])
    }
}

impl View for Instruction {
    type V = InstructionView;

    open spec fn view(&self) -> InstructionView {
        InstructionView { name: self.name@, operands: self.operands@ }
    }
}

impl DeepView for Instruction {
    type V = InstructionView;

    open spec fn deep_view(&self) -> InstructionView {
        self@
    }
}

/// What was wrong with the source at the place where parsing stopped.
#[derive(Clone, Copy, Debug, PartialEq, Eq, Structural)]
pub enum ParseErrorKind {
    /// The character is not ASCII.
    NotAscii,
    /// A mnemonic was expected: a letter or a digit.
    ExpectedMnemonic,
    /// A digit was expected.
    ExpectedDigit,
    /// The `r` of a register was expected.
    ExpectedRegister,
    /// The `]` that closes a memory reference was expected.
    ExpectedCloseBracket,
    /// The `,` between two operands was expected.
    ExpectedComma,
    /// The digits that start here spell a number too large for its type.
    IntegerOverflow,
}

/// A failure to parse: where in the source, counted in characters, and why.
#[derive(Clone, Copy, Debug, PartialEq, Eq, Structural)]
pub struct ParseError {
    pub position: usize,
    pub kind: ParseErrorKind,
}

/// A [`ParseError`] with its position as a mathematical integer.
pub struct Failure {
    pub position: int,
    pub kind: ParseErrorKind,
}

impl View for ParseError {
    type V = Failure;

    open spec fn view(&self) -> Failure {
        Failure { position: self.position as int, kind: self.kind }
    }
}

impl ParseErrorKind {
    /// The kind in words.
    pub open spec fn text(self) -> Seq<char> {
        match self {
            ParseErrorKind::NotAscii => "a character outside ASCII"@,
            ParseErrorKind::ExpectedMnemonic => "expected a mnemonic"@,
            ParseErrorKind::ExpectedDigit => "expected a digit"@,
            ParseErrorKind::ExpectedRegister => "expected a register"@,
            ParseErrorKind::ExpectedCloseBracket => "expected a closing bracket"@,
            ParseErrorKind::ExpectedComma => "expected a comma"@,
            ParseErrorKind::IntegerOverflow => "integer out of range"@,
        }
    }

    /// Says the kind in words.
    pub fn describe(self) -> (r: &'static str)
        ensures
            r@ == self.text(),
    {
        match self {
            ParseErrorKind::NotAscii => "a character outside ASCII",
            ParseErrorKind::ExpectedMnemonic => "expected a mnemonic",
            ParseErrorKind::ExpectedDigit => "expected a digit",
            ParseErrorKind::ExpectedRegister => "expected a register",
            ParseErrorKind::ExpectedCloseBracket => "expected a closing bracket",
            ParseErrorKind::ExpectedComma => "expected a comma",
            ParseErrorKind::IntegerOverflow => "integer out of range",
        }
    }
}

impl Failure {
    /// The failure in words: the position, then the kind.
    pub open spec fn message(self) -> Seq<char> {
        "Parse error at "@ + decimal_text(self.position) + ": "@ + self.kind.text()
    }
}

impl ParseError {
    /// Says the error in words: the position, then the kind.
    pub fn message(&self) -> (r: String)
        ensures
            r@ == self@.message(),
    {
        let mut text = String::from_str("Parse error at ");
        text.append(natural(self.position as u64).as_str());
        text.append(": ");
        text.append(self.kind.describe());
        text
    }
}

/// The outcome of parsing one construct at a position: its value and the
/// position behind it, or the failure.
pub type Parsed<T> = Result<(T, int), Failure>;

/// The outcome of a parsing function as the grammar states it.
pub open spec fn parsed_view<T: View>(r: Result<(T, usize), ParseError>) -> Parsed<T::V> {
    match r {
        Ok((value, next)) => Ok((value@, next as int)),
        Err(e) => Err(e@),
    }
}

/// A set of characters that the grammar takes in runs.
#[derive(Clone, Copy, Debug, PartialEq, Eq, Structural)]
pub enum CharClass {
    /// Every ASCII character.
    Ascii,
    /// Blank, tab, line feed, vertical tab, form feed, carriage return.
    Space,
    /// `a`-`z`, `A`-`Z`.
    Letter,
    /// `0`-`9`, `a`-`z`, `A`-`Z`.
    AlphaNum,
    /// `0`-`9`.
    Digit,
    /// `0`-`9`, `a`-`f`, `A`-`F`.
    HexDigit,
}

/// Whether `c` is a decimal digit.
pub open spec fn is_digit(c: char) -> bool {
    '0' <= c <= '9'
}

/// Whether `c` is `+` or `-`.
pub open spec fn is_sign(c: char) -> bool {
    c == '+' || c == '-'
}

impl CharClass {
    /// Whether `c` belongs to the class.
    pub open spec fn holds(self, c: char) -> bool {
        match self {
            CharClass::Ascii => '\0' <= c <= '\x7f',
            CharClass::Space => c == ' ' || '\t' <= c <= '\r',
            CharClass::Letter => 'a' <= c <= 'z' || 'A' <= c <= 'Z',
            CharClass::AlphaNum => is_digit(c) || 'a' <= c <= 'z' || 'A' <= c <= 'Z',
            CharClass::Digit => is_digit(c),
            CharClass::HexDigit => is_digit(c) || 'a' <= c <= 'f' || 'A' <= c <= 'F',
        }
    }
}

/// The position behind the longest run of characters of `class` that starts
/// at `start`.
pub open spec fn run_end(s: Seq<char>, class: CharClass, start: int) -> int
    decreases s.len() - start,
{
    if 0 <= start < s.len() && class.holds(s[start]) {
        run_end(s, class, start + 1)
    } else {
        start
    }
}

/// The value of a hexadecimal digit.
pub open spec fn digit_value(c: char) -> int {
    if is_digit(c) {
        c as int - '0' as int
    } else if 'a' <= c <= 'f' {
        c as int - 'a' as int + 10
    } else {
        c as int - 'A' as int + 10
    }
}

/// The number that the digits of `s` from `start` up to `end` spell, in base
/// 16 if `hex` and in base 10 if not.
pub open spec fn digits_value(s: Seq<char>, hex: bool, start: int, end: int) -> int
    decreases end - start,
{
    if end <= start {
        0
    } else if hex {
        16 * digits_value(s, hex, start, end - 1) + digit_value(s[end - 1])
    } else {
        10 * digits_value(s, hex, start, end - 1) + digit_value(s[end - 1])
    }
}

/// Whether the character of `s` at `pos` is `c`.
pub open spec fn char_is(s: Seq<char>, pos: int, c: char) -> bool {
    0 <= pos < s.len() && s[pos] == c
}

/// Whether `0x` and a hexadecimal digit stand at `pos`.
pub open spec fn has_hex_prefix(s: Seq<char>, pos: int) -> bool {
    char_is(s, pos, '0') && char_is(s, pos + 1, 'x') && pos + 2 < s.len()
        && CharClass::HexDigit.holds(s[pos + 2])
}

/// The number spelled by the digits from `start` up to `end`, which belong
/// to the literal that starts at `pos`: a failure where it exceeds
/// `i64::MAX`.
pub open spec fn number_spec(s: Seq<char>, hex: bool, pos: int, start: int, end: int) -> Parsed<
    int,
> {
    if digits_value(s, hex, start, end) > i64::MAX {
        Err(Failure { position: pos, kind: ParseErrorKind::IntegerOverflow })
    } else {
        Ok((digits_value(s, hex, start, end), end))
    }
}

/// `'0x' hex+ | dec+` at `pos`: the longest run of digits counts. Where `0x`
/// is not followed by a hexadecimal digit, the `0` alone is the number.
pub open spec fn magnitude_spec(s: Seq<char>, pos: int) -> Parsed<int> {
    if has_hex_prefix(s, pos) {
        number_spec(s, true, pos, pos + 2, run_end(s, CharClass::HexDigit, pos + 2))
    } else if 0 <= pos < s.len() && is_digit(s[pos]) {
        number_spec(s, false, pos, pos, run_end(s, CharClass::Digit, pos))
    } else {
        Err(Failure { position: pos, kind: ParseErrorKind::ExpectedDigit })
    }
}

/// `integer` at `pos`: the sign, if any, times the number behind it.
pub open spec fn integer_spec(s: Seq<char>, pos: int) -> Parsed<i64> {
    let digits = if 0 <= pos < s.len() && is_sign(s[pos]) {
        pos + 1
    } else {
        pos
    };
    match magnitude_spec(s, digits) {
        Ok((magnitude, next)) => Ok(
            (
                if char_is(s, pos, '-') {
                    (-magnitude) as i64
                } else {
                    magnitude as i64
                },
                next,
            ),
        ),
        Err(failure) => Err(failure),
    }
}

/// The `]` that ends the memory reference `operand`, at `pos`.
pub open spec fn close_bracket_spec(s: Seq<char>, pos: int, operand: Operand) -> Parsed<Operand> {
    if char_is(s, pos, ']') {
        Ok((operand, pos + 1))
    } else {
        Err(Failure { position: pos, kind: ParseErrorKind::ExpectedCloseBracket })
    }
}

/// `memory` at `pos`, where a `[` stands: the displacement is 0 where none
/// is written.
pub open spec fn memory_spec(s: Seq<char>, pos: int) -> Parsed<Operand> {
    if !char_is(s, pos + 1, 'r') {
        Err(Failure { position: pos + 1, kind: ParseErrorKind::ExpectedRegister })
    } else {
        match integer_spec(s, pos + 2) {
            Err(failure) => Err(failure),
            Ok((base, next)) => if char_is(s, next, '+') {
                match integer_spec(s, next + 1) {
                    Err(failure) => Err(failure),
                    Ok((displacement, end)) => close_bracket_spec(
                        s,
                        end,
                        Operand::Memory(base, displacement),
                    ),
                }
            } else {
                close_bracket_spec(s, next, Operand::Memory(base, 0))
            },
        }
    }
}

/// `operand` at `pos`: the first character decides among register, memory
/// reference and integer.
pub open spec fn operand_spec(s: Seq<char>, pos: int) -> Parsed<Operand> {
    if char_is(s, pos, 'r') {
        match integer_spec(s, pos + 1) {
            Ok((index, next)) => Ok((Operand::Register(index), next)),
            Err(failure) => Err(failure),
        }
    } else if char_is(s, pos, '[') {
        memory_spec(s, pos)
    } else {
        match integer_spec(s, pos) {
            Ok((value, next)) => Ok((Operand::Integer(value), next)),
            Err(failure) => Err(failure),
        }
    }
}

/// A run ends at or behind its start and within the source.
pub proof fn lemma_run_end_bounds(s: Seq<char>, class: CharClass, start: int)
    requires
        0 <= start <= s.len(),
    ensures
        start <= run_end(s, class, start) <= s.len(),
    decreases s.len() - start,
{
    if start < s.len() && class.holds(s[start]) {
        lemma_run_end_bounds(s, class, start + 1);
    }
}

/// An integer takes at least one character, and none from outside the
/// source.
pub proof fn lemma_integer_advances(s: Seq<char>, pos: int)
    ensures
        integer_spec(s, pos) matches Ok((_, next)) ==> 0 <= pos < next <= s.len(),
{
    let digits = if 0 <= pos < s.len() && is_sign(s[pos]) {
        pos + 1
    } else {
        pos
    };
    if has_hex_prefix(s, digits) {
        lemma_run_end_bounds(s, CharClass::HexDigit, digits + 2);
    } else if 0 <= digits < s.len() && is_digit(s[digits]) {
        lemma_run_end_bounds(s, CharClass::Digit, digits + 1);
    }
}

/// An operand takes at least one character, and none from outside the
/// source.
pub proof fn lemma_operand_advances(s: Seq<char>, pos: int)
    ensures
        operand_spec(s, pos) matches Ok((_, next)) ==> 0 <= pos < next <= s.len(),
{
    lemma_integer_advances(s, pos);
    lemma_integer_advances(s, pos + 1);
    lemma_integer_advances(s, pos + 2);
    if let Ok((_, next)) = integer_spec(s, pos + 2) {
        lemma_integer_advances(s, next + 1);
    }
}

/// `r` with the values of `front` before its own.
pub open spec fn prepend<T>(front: Seq<T>, r: Parsed<Seq<T>>) -> Parsed<Seq<T>> {
    match r {
        Ok((values, next)) => Ok((front + values, next)),
        Err(failure) => Err(failure),
    }
}

/// `operand { ',' operand }` at `pos`, with white space allowed on both
/// sides of a comma. The result ends behind the last operand.
pub open spec fn operands_spec(s: Seq<char>, pos: int) -> Parsed<Seq<Operand>>
    decreases s.len() - pos,
    via operands_spec_decreases
{
    match operand_spec(s, pos) {
        Err(failure) => Err(failure),
        Ok((first, next)) => {
            let comma = run_end(s, CharClass::Space, next);
            if char_is(s, comma, ',') {
                prepend(seq![first], operands_spec(s, run_end(s, CharClass::Space, comma + 1)))
            } else {
                Ok((seq![first], next))
            }
        },
    }
}

#[via_fn]
proof fn operands_spec_decreases(s: Seq<char>, pos: int) {
    lemma_operand_advances(s, pos);
    if let Ok((_, next)) = operand_spec(s, pos) {
        lemma_run_end_bounds(s, CharClass::Space, next);
        let comma = run_end(s, CharClass::Space, next);
        if char_is(s, comma, ',') {
            lemma_run_end_bounds(s, CharClass::Space, comma + 1);
        }
    }
}

/// Whether an operand starts at `pos`: with `[`, a sign or a digit, or with
/// an `r` that a sign or a digit follows. A mnemonic may start with `r` too,
/// so the `r` alone does not decide.
pub open spec fn starts_operand(s: Seq<char>, pos: int) -> bool {
    0 <= pos < s.len() && (s[pos] == '[' || is_sign(s[pos]) || is_digit(s[pos]) || (s[pos] == 'r'
        && pos + 1 < s.len() && (is_sign(s[pos + 1]) || is_digit(s[pos + 1]))))
}

/// `ident` at `pos`: the longest run of letters and digits, at least one.
pub open spec fn ident_spec(s: Seq<char>, pos: int) -> Parsed<Seq<char>> {
    if 0 <= pos < s.len() && CharClass::AlphaNum.holds(s[pos]) {
        let end = run_end(s, CharClass::AlphaNum, pos);
        Ok((s.subrange(pos, end), end))
    } else {
        Err(Failure { position: pos, kind: ParseErrorKind::ExpectedMnemonic })
    }
}

/// `instruction` at `pos`: a mnemonic and, where white space and the start
/// of an operand follow it, its operands. The result ends behind the last
/// operand, or behind the mnemonic where there is none.
pub open spec fn instruction_spec(s: Seq<char>, pos: int) -> Parsed<InstructionView> {
    match ident_spec(s, pos) {
        Err(failure) => Err(failure),
        Ok((name, end)) => {
            let first = run_end(s, CharClass::Space, end);
            if end < first && starts_operand(s, first) {
                match operands_spec(s, first) {
                    Err(failure) => Err(failure),
                    Ok((operands, next)) => Ok(
                        (InstructionView { name: name, operands: operands }, next),
                    ),
                }
            } else {
                Ok((InstructionView { name: name, operands: Seq::empty() }, end))
            }
        },
    }
}

/// A list of operands ends behind its start and within the source.
pub proof fn lemma_operands_advance(s: Seq<char>, pos: int)
    ensures
        operands_spec(s, pos) matches Ok((_, next)) ==> 0 <= pos < next <= s.len(),
    decreases s.len() - pos,
{
    lemma_operand_advances(s, pos);
    if let Ok((_, next)) = operand_spec(s, pos) {
        lemma_run_end_bounds(s, CharClass::Space, next);
        let comma = run_end(s, CharClass::Space, next);
        if char_is(s, comma, ',') {
            lemma_run_end_bounds(s, CharClass::Space, comma + 1);
            lemma_operands_advance(s, run_end(s, CharClass::Space, comma + 1));
        }
    }
}

/// An instruction takes at least one character, and none from outside the
/// source.
pub proof fn lemma_instruction_advances(s: Seq<char>, pos: int)
    ensures
        instruction_spec(s, pos) matches Ok((_, next)) ==> 0 <= pos < next <= s.len(),
{
    if 0 <= pos < s.len() && CharClass::AlphaNum.holds(s[pos]) {
        lemma_run_end_bounds(s, CharClass::AlphaNum, pos + 1);
        let end = run_end(s, CharClass::AlphaNum, pos);
        lemma_run_end_bounds(s, CharClass::Space, end);
        lemma_operands_advance(s, run_end(s, CharClass::Space, end));
    }
}

/// Every character of a run belongs to its class.
pub proof fn lemma_run_holds(s: Seq<char>, class: CharClass, start: int, i: int)
    requires
        0 <= start <= i < run_end(s, class, start),
    ensures
        i < s.len(),
        class.holds(s[i]),
    decreases i - start,
{
    if start < i {
        lemma_run_holds(s, class, start + 1, i);
    }
}

/// A run ends at the end of the source or before a character that is not
/// of its class.
pub proof fn lemma_run_stops(s: Seq<char>, class: CharClass, start: int)
    requires
        0 <= start <= s.len(),
    ensures
        run_end(s, class, start) == s.len() || !class.holds(s[run_end(s, class, start)]),
    decreases s.len() - start,
{
    if start < s.len() && class.holds(s[start]) {
        lemma_run_stops(s, class, start + 1);
    }
}

/// What parses as an instruction has a well-formed name.
pub proof fn lemma_instruction_well_formed(s: Seq<char>, pos: int)
    ensures
        instruction_spec(s, pos) matches Ok((instruction, _)) ==> instruction.well_formed(),
{
    if let Ok((name, end)) = ident_spec(s, pos) {
        lemma_run_end_bounds(s, CharClass::AlphaNum, pos + 1);
        assert forall|i: int| 0 <= i < name.len() implies CharClass::AlphaNum.holds(
            #[trigger] name[i],
        ) by {
            lemma_run_holds(s, CharClass::AlphaNum, pos, pos + i);
        }
    }
}

/// `{ instruction } EOF` at `pos`, with white space allowed before each
/// instruction and before the end.
pub open spec fn program_spec(s: Seq<char>, pos: int) -> Result<Seq<InstructionView>, Failure>
    decreases s.len() - pos,
    via program_spec_decreases
{
    let start = run_end(s, CharClass::Space, pos);
    if start >= s.len() {
        Ok(Seq::empty())
    } else {
        match instruction_spec(s, start) {
            Err(failure) => Err(failure),
            Ok((first, next)) => match program_spec(s, next) {
                Err(failure) => Err(failure),
                Ok(rest) => Ok(seq![first] + rest),
            },
        }
    }
}

#[via_fn]
proof fn program_spec_decreases(s: Seq<char>, pos: int) {
    let start = run_end(s, CharClass::Space, pos);
    if 0 <= pos <= s.len() {
        lemma_run_end_bounds(s, CharClass::Space, pos);
    }
    lemma_instruction_advances(s, start);
}

/// Whether each of `instructions` is well-formed.
pub open spec fn all_well_formed(instructions: Seq<InstructionView>) -> bool {
    forall|i: int| 0 <= i < instructions.len() ==> (#[trigger] instructions[i]).well_formed()
}

/// Every instruction of a program has a well-formed name.
pub proof fn lemma_program_well_formed(s: Seq<char>, pos: int)
    ensures
        program_spec(s, pos) matches Ok(instructions) ==> all_well_formed(instructions),
    decreases s.len() - pos,
{
    let start = run_end(s, CharClass::Space, pos);
    if start < s.len() {
        if 0 <= pos <= s.len() {
            lemma_run_end_bounds(s, CharClass::Space, pos);
        }
        lemma_instruction_advances(s, start);
        lemma_instruction_well_formed(s, start);
        if let Ok((_, next)) = instruction_spec(s, start) {
            lemma_program_well_formed(s, next);
        }
    }
}

/// A failure of `integer` lies at or behind its start and within the
/// source.
pub proof fn lemma_integer_failure(s: Seq<char>, pos: int)
    requires
        0 <= pos <= s.len(),
    ensures
        integer_spec(s, pos) matches Err(failure) ==> pos <= failure.position <= s.len(),
{
}

/// A failure of `operand` lies at or behind its start and within the
/// source.
pub proof fn lemma_operand_failure(s: Seq<char>, pos: int)
    requires
        0 <= pos <= s.len(),
    ensures
        operand_spec(s, pos) matches Err(failure) ==> pos <= failure.position <= s.len(),
{
    if char_is(s, pos, 'r') {
        lemma_integer_failure(s, pos + 1);
    } else if char_is(s, pos, '[') {
        if char_is(s, pos + 1, 'r') {
            lemma_integer_failure(s, pos + 2);
            lemma_integer_advances(s, pos + 2);
            if let Ok((_, next)) = integer_spec(s, pos + 2) {
                if char_is(s, next, '+') {
                    lemma_integer_failure(s, next + 1);
                    lemma_integer_advances(s, next + 1);
                }
            }
        }
    } else {
        lemma_integer_failure(s, pos);
    }
}

/// A failure of a list of operands lies at or behind its start and within
/// the source.
pub proof fn lemma_operands_failure(s: Seq<char>, pos: int)
    requires
        0 <= pos <= s.len(),
    ensures
        operands_spec(s, pos) matches Err(failure) ==> pos <= failure.position <= s.len(),
    decreases s.len() - pos,
{
    lemma_operand_failure(s, pos);
    lemma_operand_advances(s, pos);
    if let Ok((_, next)) = operand_spec(s, pos) {
        lemma_run_end_bounds(s, CharClass::Space, next);
        let comma = run_end(s, CharClass::Space, next);
        if char_is(s, comma, ',') {
            lemma_run_end_bounds(s, CharClass::Space, comma + 1);
            lemma_operands_failure(s, run_end(s, CharClass::Space, comma + 1));
        }
    }
}

/// A failure of a program lies at or behind its start and within the
/// source, and it is not about a character outside ASCII.
pub proof fn lemma_program_failure(s: Seq<char>, pos: int)
    requires
        0 <= pos <= s.len(),
    ensures
        program_spec(s, pos) matches Err(failure) ==> pos <= failure.position <= s.len()
            && failure.kind != ParseErrorKind::NotAscii,
    decreases s.len() - pos,
{
    lemma_run_end_bounds(s, CharClass::Space, pos);
    let start = run_end(s, CharClass::Space, pos);
    if start < s.len() {
        lemma_instruction_advances(s, start);
        if let Ok((_, end)) = ident_spec(s, start) {
            lemma_run_end_bounds(s, CharClass::AlphaNum, start + 1);
            lemma_run_end_bounds(s, CharClass::Space, end);
            lemma_operands_failure(s, run_end(s, CharClass::Space, end));
            lemma_operands_kind(s, run_end(s, CharClass::Space, end));
        }
        if let Ok((_, next)) = instruction_spec(s, start) {
            lemma_program_failure(s, next);
        }
    }
}

/// A failure of a list of operands is not about a character outside ASCII.
proof fn lemma_operands_kind(s: Seq<char>, pos: int)
    ensures
        operands_spec(s, pos) matches Err(failure) ==> failure.kind != ParseErrorKind::NotAscii,
    decreases s.len() - pos,
{
    lemma_operand_advances(s, pos);
    if let Ok((_, next)) = operand_spec(s, pos) {
        lemma_run_end_bounds(s, CharClass::Space, next);
        let comma = run_end(s, CharClass::Space, next);
        if char_is(s, comma, ',') {
            lemma_run_end_bounds(s, CharClass::Space, comma + 1);
            lemma_operands_kind(s, run_end(s, CharClass::Space, comma + 1));
        }
    }
}

/// The instructions that the source `s` spells. A source with a character
/// outside ASCII fails at the first one; any other source is parsed as a
/// program from its start.
pub open spec fn parse_spec(s: Seq<char>) -> Result<Seq<InstructionView>, Failure> {
    if !vstd::utf8::is_ascii_chars(s) {
        Err(Failure { position: run_end(s, CharClass::Ascii, 0), kind: ParseErrorKind::NotAscii })
    } else {
        program_spec(s, 0)
    }
}

/// Where a source fails to parse, the failure lies within it, at a
/// character where it is not at the end; and it is about a character outside
/// ASCII just where the source has one.
pub proof fn lemma_parse_failure(s: Seq<char>)
    ensures
        parse_spec(s) matches Err(failure) ==> {
            &&& 0 <= failure.position <= s.len()
            &&& failure.kind == ParseErrorKind::NotAscii <==> !vstd::utf8::is_ascii_chars(s)
            &&& failure.kind == ParseErrorKind::NotAscii ==> failure.position < s.len()
                && !CharClass::Ascii.holds(s[failure.position])
        },
{
    lemma_program_failure(s, 0);
    lemma_run_end_bounds(s, CharClass::Ascii, 0);
    let end = run_end(s, CharClass::Ascii, 0);
    if end == s.len() {
        assert forall|i: int| 0 <= i < s.len() implies '\0' <= #[trigger] s[i] <= '\x7f' by {
            lemma_run_holds(s, CharClass::Ascii, 0, i);
        }
    } else {
        lemma_run_stops(s, CharClass::Ascii, 0);
    }
}

impl CharClass {
    /// Tests whether `c` belongs to the class.
    pub fn contains(self, c: char) -> (r: bool)
        ensures
            r == self.holds(c),
    {
        match self {
            CharClass::Ascii => c <= '\x7f',
            CharClass::Space => c == ' ' || ('\t' <= c && c <= '\r'),
            CharClass::Letter => ('a' <= c && c <= 'z') || ('A' <= c && c <= 'Z'),
            CharClass::AlphaNum => ('0' <= c && c <= '9') || ('a' <= c && c <= 'z') || ('A' <= c
                && c <= 'Z'),
            CharClass::Digit => '0' <= c && c <= '9',
            CharClass::HexDigit => ('0' <= c && c <= '9') || ('a' <= c && c <= 'f') || ('A' <= c
                && c <= 'F'),
        }
    }
}

/// The length of an ASCII source, in characters.
pub(crate) fn length(src: &str) -> (n: usize)
    requires
        is_ascii(src),
    ensures
        n == src@.len(),
{
    broadcast use is_ascii_spec_bytes;

    src.as_bytes().len()
}

/// The character of an ASCII source at place `i`.
pub(crate) fn char_at(src: &str, i: usize) -> (c: char)
    requires
        is_ascii(src),
        i < src@.len(),
    ensures
        c == src@[i as int],
{
    src.get_ascii(i) as char
}

/// Whether the character at `pos` exists and belongs to `class`.
pub(crate) fn class_at(src: &str, class: CharClass, pos: usize) -> (r: bool)
    requires
        is_ascii(src),
    ensures
        r == (pos < src@.len() && class.holds(src@[pos as int])),
        src@.len() <= usize::MAX,
{
    pos < length(src) && class.contains(char_at(src, pos))
}

/// Whether the character at `pos` exists and is `c`.
pub(crate) fn char_is_at(src: &str, pos: usize, c: char) -> (r: bool)
    requires
        is_ascii(src),
    ensures
        r == char_is(src@, pos as int, c),
        src@.len() <= usize::MAX,
{
    pos < length(src) && char_at(src, pos) == c
}

/// Finds the end of the run of characters of `class` that starts at `start`.
pub(crate) fn scan(src: &str, class: CharClass, start: usize) -> (end: usize)
    requires
        is_ascii(src),
        start <= src@.len(),
    ensures
        end == run_end(src@, class, start as int),
        start <= end <= src@.len(),
        forall|i: int| start <= i < end ==> class.holds(#[trigger] src@[i]),
{
    let len = length(src);
    let mut end: usize = start;
    while end < len && class.contains(char_at(src, end))
        invariant
            is_ascii(src),
            len == src@.len(),
            start <= end <= len,
            run_end(src@, class, start as int) == run_end(src@, class, end as int),
            forall|i: int| start <= i < end ==> class.holds(#[trigger] src@[i]),
        decreases len - end,
    {
        end += 1;
    }
    end
}

/// The digits of a number spell at least what a part of them from the left
/// spells.
proof fn lemma_digits_value_grows(s: Seq<char>, hex: bool, start: int, mid: int, end: int)
    requires
        0 <= start <= mid <= end <= s.len(),
        forall|i: int| start <= i < end ==> CharClass::HexDigit.holds(#[trigger] s[i]),
    ensures
        0 <= digits_value(s, hex, start, mid) <= digits_value(s, hex, start, end),
    decreases end - start,
{
    if start < end {
        assert(CharClass::HexDigit.holds(s[end - 1]));
        if mid < end {
            lemma_digits_value_grows(s, hex, start, mid, end - 1);
        } else {
            lemma_digits_value_grows(s, hex, start, mid - 1, end - 1);
        }
    }
}

/// The value of the hexadecimal digit `c`.
fn digit_of(c: char) -> (d: u8)
    requires
        CharClass::HexDigit.holds(c),
    ensures
        d == digit_value(c),
        d < 16,
{
    if '0' <= c && c <= '9' {
        c as u8 - '0' as u8
    } else if 'a' <= c && c <= 'f' {
        c as u8 - 'a' as u8 + 10
    } else {
        c as u8 - 'A' as u8 + 10
    }
}

/// Reads the digits from `start` up to `end` as a number, `None` where it
/// exceeds `i64::MAX`.
pub(crate) fn number(src: &str, hex: bool, start: usize, end: usize) -> (r: Option<i64>)
    requires
        is_ascii(src),
        start <= end <= src@.len(),
        forall|i: int| start <= i < end ==> CharClass::HexDigit.holds(#[trigger] src@[i]),
    ensures
        match r {
            Some(value) => 0 <= value == digits_value(src@, hex, start as int, end as int),
            None => digits_value(src@, hex, start as int, end as int) > i64::MAX,
        },
{
    let mut value: u64 = 0;
    let mut i: usize = start;
    while i < end
        invariant
            is_ascii(src),
            start <= i <= end <= src@.len(),
            forall|i: int| start <= i < end ==> CharClass::HexDigit.holds(#[trigger] src@[i]),
            value == digits_value(src@, hex, start as int, i as int),
            value <= i64::MAX,
        decreases end - i,
    {
        let digit = digit_of(char_at(src, i));
        let wide: u128 = if hex {
            16 * (value as u128) + digit as u128
        } else {
            10 * (value as u128) + digit as u128
        };
        i += 1;
        if wide > i64::MAX as u128 {
            proof {
                lemma_digits_value_grows(src@, hex, start as int, i as int, end as int);
            }
            return None;
        }
        value = wide as u64;
    }
    Some(value as i64)
}

/// Parses `integer` at `start`.
pub fn integer(src: &str, start: usize) -> (r: Result<(i64, usize), ParseError>)
    requires
        is_ascii(src),
    ensures
        parsed_view(r) == integer_spec(src@, start as int),
        r matches Ok((_, next)) ==> start < next <= src@.len(),
{
    proof {
        lemma_integer_advances(src@, start as int);
    }
    let negative = char_is_at(src, start, '-');
    let pos = if negative || char_is_at(src, start, '+') {
        start + 1
    } else {
        start
    };
    let hex = char_is_at(src, pos, '0') && char_is_at(src, pos + 1, 'x') && class_at(
        src,
        CharClass::HexDigit,
        pos + 2,
    );
    let digits = if hex {
        pos + 2
    } else {
        pos
    };
    if !hex && !class_at(src, CharClass::Digit, pos) {
        return Err(ParseError { position: pos, kind: ParseErrorKind::ExpectedDigit });
    }
    let class = if hex {
        CharClass::HexDigit
    } else {
        CharClass::Digit
    };
    let end = scan(src, class, digits);
    match number(src, hex, digits, end) {
        Some(magnitude) => Ok(
            (
                if negative {
                    -magnitude
                } else {
                    magnitude
                },
                end,
            ),
        ),
        None => Err(ParseError { position: pos, kind: ParseErrorKind::IntegerOverflow }),
    }
}

/// Parses `memory` at `start`, where a `[` stands.
fn memory(src: &str, start: usize) -> (r: Result<(Operand, usize), ParseError>)
    requires
        is_ascii(src),
        char_is(src@, start as int, '['),
        src@.len() <= usize::MAX,
    ensures
        parsed_view(r) == memory_spec(src@, start as int),
        r matches Ok((_, next)) ==> start < next <= src@.len(),
{
    proof {
        lemma_operand_advances(src@, start as int);
    }
    if !char_is_at(src, start + 1, 'r') {
        return Err(ParseError { position: start + 1, kind: ParseErrorKind::ExpectedRegister });
    }
    let (base, next) = match integer(src, start + 2) {
        Ok(parsed) => parsed,
        Err(e) => {
            return Err(e);
        },
    };
    let (displacement, end) = if char_is_at(src, next, '+') {
        match integer(src, next + 1) {
            Ok(parsed) => parsed,
            Err(e) => {
                return Err(e);
            },
        }
    } else {
        (0, next)
    };
    if char_is_at(src, end, ']') {
        Ok((Operand::Memory(base, displacement), end + 1))
    } else {
        Err(ParseError { position: end, kind: ParseErrorKind::ExpectedCloseBracket })
    }
}

/// Parses `operand` at `start`.
pub fn operand(src: &str, start: usize) -> (r: Result<(Operand, usize), ParseError>)
    requires
        is_ascii(src),
    ensures
        parsed_view(r) == operand_spec(src@, start as int),
        r matches Ok((_, next)) ==> start < next <= src@.len(),
{
    proof {
        lemma_operand_advances(src@, start as int);
    }
    if char_is_at(src, start, 'r') {
        match integer(src, start + 1) {
            Ok((index, next)) => Ok((Operand::Register(index), next)),
            Err(e) => Err(e),
        }
    } else if char_is_at(src, start, '[') {
        memory(src, start)
    } else {
        match integer(src, start) {
            Ok((value, next)) => Ok((Operand::Integer(value), next)),
            Err(e) => Err(e),
        }
    }
}

/// Parses `ident` at `start`.
pub fn ident(src: &str, start: usize) -> (r: Result<(String, usize), ParseError>)
    requires
        is_ascii(src),
    ensures
        parsed_view(r) == ident_spec(src@, start as int),
        r matches Ok((_, next)) ==> start < next <= src@.len(),
{
    if !class_at(src, CharClass::AlphaNum, start) {
        return Err(ParseError { position: start, kind: ParseErrorKind::ExpectedMnemonic });
    }
    let end = scan(src, CharClass::AlphaNum, start);
    proof {
        lemma_run_end_bounds(src@, CharClass::AlphaNum, start + 1);
    }
    Ok((String::from_str(src.substring_ascii(start, end)), end))
}

/// Tests whether an operand starts at `pos`.
fn starts_operand_at(src: &str, pos: usize) -> (r: bool)
    requires
        is_ascii(src),
    ensures
        r == starts_operand(src@, pos as int),
{
    if pos >= length(src) {
        return false;
    }
    let c = char_at(src, pos);
    c == '[' || c == '+' || c == '-' || CharClass::Digit.contains(c) || (c == 'r' && (
    char_is_at(src, pos + 1, '+') || char_is_at(src, pos + 1, '-') || class_at(
        src,
        CharClass::Digit,
        pos + 1,
    )))
}

/// Parses `operand { ',' operand }` at `start`.
fn operands(src: &str, start: usize) -> (r: Result<(Vec<Operand>, usize), ParseError>)
    requires
        is_ascii(src),
        start <= src@.len(),
    ensures
        parsed_view(r) == operands_spec(src@, start as int),
        r matches Ok((_, next)) ==> start < next <= src@.len(),
{
    let mut operands: Vec<Operand> = Vec::new();
    let mut pos: usize = start;
    loop
        invariant
            is_ascii(src),
            start <= pos <= src@.len(),
            operands_spec(src@, start as int) == prepend(
                operands@,
                operands_spec(src@, pos as int),
            ),
        decreases src@.len() - pos,
    {
        let (value, next) = match operand(src, pos) {
            Ok(parsed) => parsed,
            Err(e) => {
                return Err(e);
            },
        };
        let ghost before = operands@;
        operands.push(value);
        let comma = scan(src, CharClass::Space, next);
        if !char_is_at(src, comma, ',') {
            assert(before + seq![value] == operands@);
            return Ok((operands, next));
        }
        let following = scan(src, CharClass::Space, comma + 1);
        proof {
            let rest = operands_spec(src@, following as int);
            assert(operands_spec(src@, pos as int) == prepend(seq![value], rest));
            if let Ok((values, _)) = rest {
                assert(before + (seq![value] + values) == operands@ + values);
            }
        }
        pos = following;
    }
}

/// Parses `instruction` at `start`.
pub fn instruction(src: &str, start: usize) -> (r: Result<(Instruction, usize), ParseError>)
    requires
        is_ascii(src),
    ensures
        parsed_view(r) == instruction_spec(src@, start as int),
        r matches Ok((_, next)) ==> start < next <= src@.len(),
{
    let (name, end) = match ident(src, start) {
        Ok(parsed) => parsed,
        Err(e) => {
            return Err(e);
        },
    };
    let first = scan(src, CharClass::Space, end);
    if end < first && starts_operand_at(src, first) {
        match operands(src, first) {
            Ok((operands, next)) => Ok((Instruction { name: name, operands: operands }, next)),
            Err(e) => Err(e),
        }
    } else {
        Ok((Instruction { name: name, operands: Vec::new() }, end))
    }
}

/// `r` with the instructions of `front` before its own.
pub open spec fn prepend_program(
    front: Seq<InstructionView>,
    r: Result<Seq<InstructionView>, Failure>,
) -> Result<Seq<InstructionView>, Failure> {
    match r {
        Ok(rest) => Ok(front + rest),
        Err(failure) => Err(failure),
    }
}

/// The outcome of [`parse`] as the grammar states it.
pub open spec fn parse_view(r: Result<Vec<Instruction>, ParseError>) -> Result<
    Seq<InstructionView>,
    Failure,
> {
    match r {
        Ok(instructions) => Ok(instructions.deep_view()),
        Err(e) => Err(e@),
    }
}

/// Finds the first character outside ASCII, or the end of the source.
pub(crate) fn ascii_end(src: &str) -> (end: usize)
    ensures
        end == run_end(src@, CharClass::Ascii, 0),
{
    let len = src.unicode_len();
    let mut end: usize = 0;
    for c in it: src.chars()
        invariant
            it.seq() == src@,
            len == src@.len(),
            end == it.index(),
            run_end(src@, CharClass::Ascii, 0) == run_end(src@, CharClass::Ascii, end as int),
    {
        if !CharClass::Ascii.contains(c) {
            return end;
        }
        end += 1;
    }
    len
}

/// Parses a whole source into its instructions.
pub fn parse(src: &str) -> (r: Result<Vec<Instruction>, ParseError>)
    ensures
        parse_view(r) == parse_spec(src@),
        r matches Ok(instructions) ==> all_well_formed(instructions.deep_view()),
{
    if !src.is_ascii() {
        return Err(ParseError { position: ascii_end(src), kind: ParseErrorKind::NotAscii });
    }
    let len = length(src);
    let mut instructions: Vec<Instruction> = Vec::new();
    let mut pos: usize = 0;
    loop
        invariant
            is_ascii(src),
            len == src@.len(),
            pos <= len,
            program_spec(src@, 0) == prepend_program(
                instructions.deep_view(),
                program_spec(src@, pos as int),
            ),
        decreases len - pos,
    {
        let start = scan(src, CharClass::Space, pos);
        if start >= len {
            proof {
                let parsed = instructions.deep_view();
                assert(parsed + Seq::empty() == parsed);
                assert(program_spec(src@, 0) == Ok::<Seq<InstructionView>, Failure>(parsed));
                lemma_program_well_formed(src@, 0);
            }
            return Ok(instructions);
        }
        let (parsed, next) = match instruction(src, start) {
            Ok(parsed) => parsed,
            Err(e) => {
                return Err(e);
            },
        };
        let ghost before = instructions.deep_view();
        let ghost first = parsed@;
        instructions.push(parsed);
        proof {
            assert(instructions.deep_view() == before + seq![first]);
            if let Ok(rest) = program_spec(src@, next as int) {
                assert(before + (seq![first] + rest) == instructions.deep_view() + rest);
            }
        }
        pos = next;
    }
}

} // verus!
