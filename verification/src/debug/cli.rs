//! The command line of the debugger: what a line of text asks for.

use vstd::prelude::*;
use vstd::slice::slice_subrange;
use crate::debug::{DebugCtx, DebugView, DebuggerCommand};

verus! {

/// Why a line that sets the breakpoint cannot be carried out.
#[derive(Copy, Clone, PartialEq, Eq, Structural, Debug)]
pub enum CliError {
    /// Nothing follows the command.
    MissingAddress,
    /// What follows the command is not a hexadecimal number below 2^16.
    BadAddress,
}

/// The byte is one of the white-space characters of one byte: a space, a
/// tab, a line feed, a vertical tab, a form feed or a carriage return.
pub open spec fn is_short_space(byte: u8) -> bool {
    byte == 0x20 || (0x09 <= byte <= 0x0D)
}

/// The two bytes are the UTF-8 form of a white-space character: the next
/// line control U+0085 or the no-break space U+00A0.
pub open spec fn is_narrow_space(first: u8, second: u8) -> bool {
    first == 0xC2 && (second == 0x85 || second == 0xA0)
}

/// The three bytes are the UTF-8 form of a white-space character: U+1680,
/// one of U+2000 to U+200A, U+2028, U+2029, U+202F, U+205F or U+3000.
pub open spec fn is_wide_space(first: u8, second: u8, third: u8) -> bool {
    ||| first == 0xE1 && second == 0x9A && third == 0x80
    ||| first == 0xE2 && second == 0x80 && (0x80 <= third <= 0x8A || third == 0xA8 || third == 0xA9
        || third == 0xAF)
    ||| first == 0xE2 && second == 0x81 && third == 0x9F
    ||| first == 0xE3 && second == 0x80 && third == 0x80
}

/// Bytes of the white-space character that starts at `at` and ends at or
/// before `to`; 0 if no such character stands there.
pub open spec fn space_at(line: Seq<u8>, at: int, to: int) -> int {
    if 0 <= at && at + 1 <= to <= line.len() && is_short_space(line[at]) {
        1
    } else if 0 <= at && at + 2 <= to <= line.len() && is_narrow_space(line[at], line[at + 1]) {
        2
    } else if 0 <= at && at + 3 <= to <= line.len() && is_wide_space(
        line[at],
        line[at + 1],
        line[at + 2],
    ) {
        3
    } else {
        0
    }
}

/// Bytes of the white-space character that ends just before `to` and
/// starts at or after `from`; 0 if no such character stands there.
pub open spec fn space_before(line: Seq<u8>, from: int, to: int) -> int {
    if 0 <= from && from + 1 <= to <= line.len() && is_short_space(line[to - 1]) {
        1
    } else if 0 <= from && from + 2 <= to <= line.len() && is_narrow_space(
        line[to - 2],
        line[to - 1],
    ) {
        2
    } else if 0 <= from && from + 3 <= to <= line.len() && is_wide_space(
        line[to - 3],
        line[to - 2],
        line[to - 1],
    ) {
        3
    } else {
        0
    }
}

/// Index of the first byte at or after `from` that starts no white-space
/// character; the length of the line if there is none.
pub open spec fn skip_spaces(line: Seq<u8>, from: int) -> int
    decreases line.len() - from,
{
    let width = space_at(line, from, line.len() as int);
    if width > 0 {
        skip_spaces(line, from + width)
    } else {
        from
    }
}

/// Index behind the last byte before `to`, and not before `from`, that
/// ends no white-space character; `from` if there is none.
pub open spec fn drop_spaces(line: Seq<u8>, from: int, to: int) -> int
    decreases to,
{
    let width = space_before(line, from, to);
    if width > 0 {
        drop_spaces(line, from, to - width)
    } else {
        to
    }
}

/// The line without the white space at its two ends. White space is every
/// character that Unicode gives the property, in its UTF-8 form; in a line
/// that is no UTF-8 the same byte patterns are dropped.
pub open spec fn trimmed(line: Seq<u8>) -> Seq<u8> {
    let from = skip_spaces(line, 0);
    line.subrange(from, drop_spaces(line, from, line.len() as int))
}

/// `word` stands in `line` at index `at`.
pub open spec fn occurs_at(line: Seq<u8>, word: Seq<u8>, at: int) -> bool {
    0 <= at && at + word.len() <= line.len() && line.subrange(at, at + word.len()) == word
}

/// `word` stands somewhere in `line`.
pub open spec fn mentions(line: Seq<u8>, word: Seq<u8>) -> bool {
    exists|at: int| occurs_at(line, word, at)
}

/// Index of the first space at or after `from`; the length of the line if
/// there is none.
pub open spec fn next_space(line: Seq<u8>, from: int) -> int
    decreases line.len() - from,
{
    if 0 <= from < line.len() && line[from] != 0x20 {
        next_space(line, from + 1)
    } else {
        from
    }
}

/// What stands between the first space of the line and the next one, if
/// the line holds a space.
pub open spec fn second_word(line: Seq<u8>) -> Option<Seq<u8>> {
    let first = next_space(line, 0);
    if first >= line.len() {
        None
    } else {
        Some(line.subrange(first + 1, next_space(line, first + 1)))
    }
}

/// The value of a hexadecimal digit, upper or lower case.
pub open spec fn hex_digit(byte: u8) -> Option<int> {
    if 0x30 <= byte <= 0x39 {
        Some(byte - 0x30)
    } else if 0x61 <= byte <= 0x66 {
        Some(byte - 0x61 + 10)
    } else if 0x41 <= byte <= 0x46 {
        Some(byte - 0x41 + 10)
    } else {
        None
    }
}

/// The number that a run of hexadecimal digits writes; `None` if one of
/// the bytes is no digit.
pub open spec fn hex_number(digits: Seq<u8>) -> Option<int>
    decreases digits.len(),
{
    if digits.len() == 0 {
        Some(0)
    } else {
        match (hex_number(digits.drop_last()), hex_digit(digits.last())) {
            (Some(upper), Some(digit)) => Some(16 * upper + digit),
            _ => None,
        }
    }
}

/// The address that a word writes: an optional plus sign, then at least
/// one hexadecimal digit, with a value below 2^16.
pub open spec fn parse_address(word: Seq<u8>) -> Option<u16> {
    let digits = if word.len() > 0 && word[0] == 0x2B {
        word.drop_first()
    } else {
        word
    };
    if digits.len() == 0 {
        None
    } else {
        match hex_number(digits) {
            Some(value) => if value <= 0xFFFF {
                Some(value as u16)
            } else {
                None
            },
            None => None,
        }
    }
}

pub open spec fn word_break_set() -> Seq<u8> {
    seq![
        'b' as u8,
        'r' as u8,
        'e' as u8,
        'a' as u8,
        'k' as u8,
        '_' as u8,
        's' as u8,
        'e' as u8,
        't' as u8,
    ]
}

pub open spec fn word_break_reset() -> Seq<u8> {
    seq![
        'b' as u8,
        'r' as u8,
        'e' as u8,
        'a' as u8,
        'k' as u8,
        '_' as u8,
        'r' as u8,
        'e' as u8,
        's' as u8,
        'e' as u8,
        't' as u8,
    ]
}

pub open spec fn word_run() -> Seq<u8> {
    seq!['r' as u8, 'u' as u8, 'n' as u8]
}

pub open spec fn word_halt() -> Seq<u8> {
    seq!['h' as u8, 'a' as u8, 'l' as u8, 't' as u8]
}

pub open spec fn word_step() -> Seq<u8> {
    seq!['s' as u8, 't' as u8, 'e' as u8, 'p' as u8]
}

pub open spec fn word_help() -> Seq<u8> {
    seq!['h' as u8, 'e' as u8, 'l' as u8, 'p' as u8]
}

/// The address that a line gives the breakpoint: its second word, read as
/// a hexadecimal number.
pub open spec fn line_address(line: Seq<u8>) -> Result<u16, CliError> {
    match second_word(trimmed(line)) {
        None => Err(CliError::MissingAddress),
        Some(word) => match parse_address(word) {
            None => Err(CliError::BadAddress),
            Some(address) => Ok(address),
        },
    }
}

/// The line cannot be carried out, and why: it sets the breakpoint and
/// gives no good address.
pub open spec fn line_error(line: Seq<u8>) -> Option<CliError> {
    if mentions(trimmed(line), word_break_set()) {
        match line_address(line) {
            Err(error) => Some(error),
            Ok(_) => None,
        }
    } else {
        None
    }
}

/// The line asks for the list of commands.
pub open spec fn asks_help(line: Seq<u8>) -> bool {
    mentions(trimmed(line), word_help())
}

/// The debugger after a line that can be carried out. Every command that
/// the line mentions takes effect, in this order: the breakpoint is set
/// and switched on, the breakpoint is switched off, then `RUN`, `HALT`
/// and `STEP` are queued.
pub open spec fn after_line(debug: DebugView, line: Seq<u8>) -> DebugView {
    let text = trimmed(line);
    let set = if mentions(text, word_break_set()) {
        DebugView { breakpoint: line_address(line)->Ok_0, break_enabled: true, ..debug }
    } else {
        debug
    };
    let reset = if mentions(text, word_break_reset()) {
        DebugView { break_enabled: false, ..set }
    } else {
        set
    };
    let run = if mentions(text, word_run()) {
        DebugView { cmd: reset.cmd.push(DebuggerCommand::RUN), ..reset }
    } else {
        reset
    };
    let halt = if mentions(text, word_halt()) {
        DebugView { cmd: run.cmd.push(DebuggerCommand::HALT), ..run }
    } else {
        run
    };
    if mentions(text, word_step()) {
        DebugView { cmd: halt.cmd.push(DebuggerCommand::STEP), ..halt }
    } else {
        halt
    }
}

/// The value of a run of digits is at least the value of each of its
/// beginnings, and a run with a beginning that is no number is none.
proof fn lemma_hex_number_grows(digits: Seq<u8>, to: int)
    requires
        0 <= to <= digits.len(),
    ensures
        match hex_number(digits) {
            Some(value) => hex_number(digits.subrange(0, to)) is Some && 0 <= hex_number(
                digits.subrange(0, to),
            )->0 <= value,
            None => true,
        },
    decreases digits.len(),
{
    if to == digits.len() {
        assert(digits.subrange(0, to) =~= digits);
        if digits.len() > 0 {
            lemma_hex_number_grows(digits.drop_last(), to - 1);
        }
    } else {
        assert(digits.drop_last().subrange(0, to) =~= digits.subrange(0, to));
        lemma_hex_number_grows(digits.drop_last(), to);
    }
}

fn short_space(byte: u8) -> (yes: bool)
    ensures
        yes == is_short_space(byte),
{
    byte == 0x20 || (0x09 <= byte && byte <= 0x0D)
}

fn narrow_space(first: u8, second: u8) -> (yes: bool)
    ensures
        yes == is_narrow_space(first, second),
{
    first == 0xC2 && (second == 0x85 || second == 0xA0)
}

fn wide_space(first: u8, second: u8, third: u8) -> (yes: bool)
    ensures
        yes == is_wide_space(first, second, third),
{
    (first == 0xE1 && second == 0x9A && third == 0x80) || (first == 0xE2 && second == 0x80 && ((
    0x80 <= third && third <= 0x8A) || third == 0xA8 || third == 0xA9 || third == 0xAF)) || (first
        == 0xE2 && second == 0x81 && third == 0x9F) || (first == 0xE3 && second == 0x80 && third
        == 0x80)
}

/// Bytes of the white-space character that starts at `at`, within the
/// first `to` bytes of the line.
fn leading_space(line: &[u8], at: usize, to: usize) -> (width: usize)
    requires
        at <= to <= line@.len(),
    ensures
        width == space_at(line@, at as int, to as int),
        at + width <= to,
{
    let left: usize = to - at;
    if left >= 1 && short_space(line[at]) {
        1
    } else if left >= 2 && narrow_space(line[at], line[at + 1]) {
        2
    } else if left >= 3 && wide_space(line[at], line[at + 1], line[at + 2]) {
        3
    } else {
        0
    }
}

/// Bytes of the white-space character that ends just before `to`, behind
/// the first `from` bytes of the line.
fn trailing_space(line: &[u8], from: usize, to: usize) -> (width: usize)
    requires
        from <= to <= line@.len(),
    ensures
        width == space_before(line@, from as int, to as int),
        from + width <= to,
{
    let left: usize = to - from;
    if left >= 1 && short_space(line[to - 1]) {
        1
    } else if left >= 2 && narrow_space(line[to - 2], line[to - 1]) {
        2
    } else if left >= 3 && wide_space(line[to - 3], line[to - 2], line[to - 1]) {
        3
    } else {
        0
    }
}

/// The line without the white space at its two ends.
pub fn trim(line: &[u8]) -> (text: &[u8])
    ensures
        text@ == trimmed(line@),
{
    let mut from: usize = 0;
    loop
        invariant
            from <= line@.len(),
            skip_spaces(line@, 0) == skip_spaces(line@, from as int),
        ensures
            from <= line@.len(),
            skip_spaces(line@, 0) == from,
        decreases line@.len() - from,
    {
        let width: usize = leading_space(line, from, line.len());
        if width == 0 {
            break ;
        }
        from = from + width;
    }
    let mut to: usize = line.len();
    loop
        invariant
            from <= to <= line@.len(),
            drop_spaces(line@, from as int, line@.len() as int) == drop_spaces(
                line@,
                from as int,
                to as int,
            ),
        ensures
            from <= to <= line@.len(),
            drop_spaces(line@, from as int, line@.len() as int) == to,
        decreases to,
    {
        let width: usize = trailing_space(line, from, to);
        if width == 0 {
            break ;
        }
        to = to - width;
    }
    slice_subrange(line, from, to)
}

/// Says whether `word` stands somewhere in `line`.
pub fn contains(line: &[u8], word: &[u8]) -> (found: bool)
    ensures
        found == mentions(line@, word@),
{
    if word.len() > line.len() {
        assert forall|at: int| !occurs_at(line@, word@, at) by {}
        return false;
    }
    let last: usize = line.len() - word.len();
    let mut at: usize = 0;
    while at <= last
        invariant
            at <= last + 1,
            last == line@.len() - word@.len(),
            line@.len() <= usize::MAX,
            forall|before: int| 0 <= before < at ==> !occurs_at(line@, word@, before),
        decreases last + 1 - at,
    {
        let mut same: usize = 0;
        while same < word.len() && line[at + same] == word[same]
            invariant
                same <= word@.len(),
                at + word@.len() <= line@.len(),
                line@.len() <= usize::MAX,
                forall|k: int| 0 <= k < same ==> line@[at + k] == word@[k],
            decreases word@.len() - same,
        {
            same = same + 1;
        }
        if same == word.len() {
            assert(line@.subrange(at as int, at + word@.len()) =~= word@);
            assert(occurs_at(line@, word@, at as int));
            return true;
        }
        assert(!occurs_at(line@, word@, at as int)) by {
            if occurs_at(line@, word@, at as int) {
                assert(line@.subrange(at as int, at + word@.len())[same as int] == word@[same as int]);
            }
        }
        at = at + 1;
    }
    assert forall|any: int| !occurs_at(line@, word@, any) by {}
    false
}

/// Index of the first space at or after `from`.
fn find_space(line: &[u8], from: usize) -> (at: usize)
    requires
        from <= line@.len(),
    ensures
        at == next_space(line@, from as int),
        from <= at <= line@.len(),
{
    let mut at: usize = from;
    while at < line.len() && line[at] != 0x20
        invariant
            from <= at <= line@.len(),
            next_space(line@, from as int) == next_space(line@, at as int),
        decreases line@.len() - at,
    {
        at = at + 1;
    }
    at
}

/// Reads a word as an address: an optional plus sign, then hexadecimal
/// digits.
pub fn read_address(word: &[u8]) -> (address: Option<u16>)
    ensures
        address == parse_address(word@),
{
    let start: usize = if word.len() > 0 && word[0] == 0x2B {
        1
    } else {
        0
    };
    if start == word.len() {
        return None;
    }
    let ghost digits = if word@.len() > 0 && word@[0] == 0x2B {
        word@.drop_first()
    } else {
        word@
    };
    assert(digits =~= word@.subrange(start as int, word@.len() as int));
    let mut value: u32 = 0;
    let mut at: usize = start;
    while at < word.len()
        invariant
            start <= at <= word@.len(),
            digits.len() > 0,
            digits == if word@.len() > 0 && word@[0] == 0x2B {
                word@.drop_first()
            } else {
                word@
            },
            digits == word@.subrange(start as int, word@.len() as int),
            value <= 0xFFFF,
            hex_number(digits.subrange(0, at - start)) == Some(value as int),
        decreases word@.len() - at,
    {
        let byte: u8 = word[at];
        let digit: u32 = if 0x30 <= byte && byte <= 0x39 {
            (byte - 0x30) as u32
        } else if 0x61 <= byte && byte <= 0x66 {
            (byte - 0x61 + 10) as u32
        } else if 0x41 <= byte && byte <= 0x46 {
            (byte - 0x41 + 10) as u32
        } else {
            proof {
                let longer = digits.subrange(0, at - start + 1);
                assert(longer.drop_last() =~= digits.subrange(0, at - start));
                assert(longer.last() == byte);
                assert(hex_number(longer) is None);
                lemma_hex_number_grows(digits, at - start + 1);
                assert(hex_number(digits) is None);
            }
            return None;
        };
        proof {
            let longer = digits.subrange(0, at - start + 1);
            assert(longer.drop_last() =~= digits.subrange(0, at - start));
            assert(longer.last() == byte);
            assert(hex_number(longer) == Some(16 * value + digit));
        }
        if value * 16 + digit > 0xFFFF {
            proof {
                lemma_hex_number_grows(digits, at - start + 1);
                assert(hex_number(digits) is Some ==> hex_number(digits)->0 > 0xFFFF);
            }
            return None;
        }
        value = value * 16 + digit;
        at = at + 1;
    }
    assert(digits.subrange(0, at - start) =~= digits);
    Some(value as u16)
}

/// The address that a trimmed line gives the breakpoint.
fn read_line_address(text: &[u8]) -> (address: Result<u16, CliError>)
    ensures
        address == match second_word(text@) {
            None => Err::<u16, CliError>(CliError::MissingAddress),
            Some(word) => match parse_address(word) {
                None => Err::<u16, CliError>(CliError::BadAddress),
                Some(value) => Ok::<u16, CliError>(value),
            },
        },
{
    let first: usize = find_space(text, 0);
    if first >= text.len() {
        return Err(CliError::MissingAddress);
    }
    let end: usize = find_space(text, first + 1);
    match read_address(slice_subrange(text, first + 1, end)) {
        None => Err(CliError::BadAddress),
        Some(address) => Ok(address),
    }
}

/// Carries out a line typed at the debugger. `Ok` says whether the line
/// asks for the list of commands. A line that sets the breakpoint without
/// a good address fails and changes nothing.
pub fn debug_command(dbg_ctx: &mut DebugCtx, line: &[u8]) -> (result: Result<bool, CliError>)
    ensures
        match line_error(line@) {
            Some(error) => result == Err::<bool, CliError>(error) && final(dbg_ctx)@ == old(
                dbg_ctx,
            )@,
            None => result == Ok::<bool, CliError>(asks_help(line@)) && final(dbg_ctx)@
                == after_line(old(dbg_ctx)@, line@),
        },
{
    let text: &[u8] = trim(line);
    let break_set: [u8; 9] = [
        'b' as u8,
        'r' as u8,
        'e' as u8,
        'a' as u8,
        'k' as u8,
        '_' as u8,
        's' as u8,
        'e' as u8,
        't' as u8,
    ];
    let break_reset: [u8; 11] = [
        'b' as u8,
        'r' as u8,
        'e' as u8,
        'a' as u8,
        'k' as u8,
        '_' as u8,
        'r' as u8,
        'e' as u8,
        's' as u8,
        'e' as u8,
        't' as u8,
    ];
    let run: [u8; 3] = ['r' as u8, 'u' as u8, 'n' as u8];
    let halt: [u8; 4] = ['h' as u8, 'a' as u8, 'l' as u8, 't' as u8];
    let step: [u8; 4] = ['s' as u8, 't' as u8, 'e' as u8, 'p' as u8];
    let help: [u8; 4] = ['h' as u8, 'e' as u8, 'l' as u8, 'p' as u8];
    assert(break_set@ =~= word_break_set());
    assert(break_reset@ =~= word_break_reset());
    assert(run@ =~= word_run());
    assert(halt@ =~= word_halt());
    assert(step@ =~= word_step());
    assert(help@ =~= word_help());
    if contains(text, break_set.as_slice()) {
        match read_line_address(text) {
            Err(error) => {
                return Err(error);
            },
            Ok(address) => {
                dbg_ctx.breakpoint = address;
                dbg_ctx.break_enabled = true;
            },
        }
    }
    if contains(text, break_reset.as_slice()) {
        dbg_ctx.break_enabled = false;
    }
    if contains(text, run.as_slice()) {
        dbg_ctx.cmd.push(DebuggerCommand::RUN);
    }
    if contains(text, halt.as_slice()) {
        dbg_ctx.cmd.push(DebuggerCommand::HALT);
    }
    if contains(text, step.as_slice()) {
        dbg_ctx.cmd.push(DebuggerCommand::STEP);
    }
    Ok(contains(text, help.as_slice()))
}

} // verus!
