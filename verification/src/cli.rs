//! The command line: which mode the arguments select, and for how long a
//! cache run is to sample.

use vstd::prelude::*;

verus! {

/// The length of a cache run, in seconds, where the argument gives no
/// number that can be read.
pub const DEFAULT_TIMES: u64 = 10;

/// What the command line asks for.
#[derive(Clone, Copy, PartialEq, Eq, Structural, Debug)]
pub enum Command {
    /// No mode is given: the usage is to be shown.
    Usage,
    /// Sample for so many seconds and persist the final aggregate.
    Cache(u64),
    /// Cache mode, but no argument for the length of the run follows it.
    CacheWithoutTimes,
    /// Show the persisted result.
    Read,
    /// The mode is none of the known ones.
    UnknownMode,
}

/// The argument that selects cache mode.
pub open spec fn cache_mode() -> Seq<char> {
    "--mode=cache"@
}

/// The argument that selects read mode.
pub open spec fn read_mode() -> Seq<char> {
    "--mode=read"@
}

/// What the argument for the length of a cache run begins with.
pub open spec fn times_prefix() -> Seq<char> {
    "--times="@
}

/// Whether `c` is one of the ten decimal digits.
pub open spec fn is_digit(c: char) -> bool {
    '0' <= c <= '9'
}

/// Whether `text` is made of decimal digits alone.
pub open spec fn all_digits(text: Seq<char>) -> bool {
    forall|i: int| 0 <= i < text.len() ==> is_digit(#[trigger] text[i])
}

/// The number that the decimal digits of `digits` write.
pub open spec fn decimal_value(digits: Seq<char>) -> nat
    decreases digits.len(),
{
    if digits.len() == 0 {
        0
    } else {
        decimal_value(digits.drop_last()) * 10 + (digits.last() as nat - '0' as nat) as nat
    }
}

/// The number that `text` writes: one or more decimal digits, with or
/// without a plus sign before them, that stay within 64 bits. Any other
/// text writes no number.
pub open spec fn unsigned_of(text: Seq<char>) -> Option<u64> {
    let digits = if text.len() > 0 && text[0] == '+' {
        text.drop_first()
    } else {
        text
    };
    if digits.len() > 0 && all_digits(digits) && decimal_value(digits) <= u64::MAX {
        Some(decimal_value(digits) as u64)
    } else {
        None
    }
}

/// The part of `text` before its first equals sign: all of it where it has none.
pub open spec fn until_equals(text: Seq<char>) -> Seq<char>
    decreases text.len(),
{
    if text.len() == 0 || text[0] == '=' {
        Seq::empty()
    } else {
        seq![text[0]] + until_equals(text.drop_first())
    }
}

/// Whether `text` begins with `prefix`.
pub open spec fn begins_with(text: Seq<char>, prefix: Seq<char>) -> bool {
    prefix.len() <= text.len() && text.take(prefix.len() as int) == prefix
}

/// The length of the run that `argument` asks for, where it is an argument
/// for that length at all. The number is read from what follows the prefix,
/// up to the next equals sign; where that is no number, the default stands.
pub open spec fn times_of(argument: Seq<char>) -> Option<u64> {
    if begins_with(argument, times_prefix()) {
        match unsigned_of(until_equals(argument.skip(times_prefix().len() as int))) {
            Some(times) => Some(times),
            None => Some(DEFAULT_TIMES),
        }
    } else {
        None
    }
}

/// What the arguments ask for. The first is the name of the program, the
/// second selects the mode, and in cache mode the third gives the length
/// of the run.
pub open spec fn command_of(args: Seq<Seq<char>>) -> Command {
    if args.len() < 2 {
        Command::Usage
    } else if args[1] == cache_mode() {
        if args.len() >= 3 && times_of(args[2]) is Some {
            Command::Cache(times_of(args[2])->0)
        } else {
            Command::CacheWithoutTimes
        }
    } else if args[1] == read_mode() {
        Command::Read
    } else {
        Command::UnknownMode
    }
}

/// The characters of `text`, in order.
pub fn chars_of(text: &str) -> (chars: Vec<char>)
    ensures
        chars@ == text@,
{
    let mut chars: Vec<char> = Vec::new();
    for c in iter: text.chars()
        invariant
            chars@ == iter.seq().take(iter.index() as int),
            iter.seq() == text@,
    {
        chars.push(c);
    }
    chars
}

/// Whether `text` and `other` hold the same characters.
pub fn same_text(text: &Vec<char>, other: &Vec<char>) -> (same: bool)
    ensures
        same == (text@ == other@),
{
    if text.len() != other.len() {
        return false;
    }
    let mut i: usize = 0;
    while i < text.len()
        invariant
            text.len() == other.len(),
            i <= text.len(),
            text@.take(i as int) == other@.take(i as int),
        decreases text.len() - i,
    {
        if text[i] != other[i] {
            return false;
        }
        assert(text@.take(i + 1) =~= text@.take(i as int).push(text@[i as int]));
        assert(other@.take(i + 1) =~= other@.take(i as int).push(other@[i as int]));
        i += 1;
    }
    assert(text@.take(i as int) =~= text@);
    assert(other@.take(i as int) =~= other@);
    true
}

/// Whether `text` begins with `prefix`.
pub fn has_prefix(text: &Vec<char>, prefix: &Vec<char>) -> (found: bool)
    ensures
        found == begins_with(text@, prefix@),
{
    if prefix.len() > text.len() {
        return false;
    }
    let mut i: usize = 0;
    while i < prefix.len()
        invariant
            prefix.len() <= text.len(),
            i <= prefix.len(),
            text@.take(i as int) == prefix@.take(i as int),
        decreases prefix.len() - i,
    {
        if text[i] != prefix[i] {
            assert(text@.take(prefix.len() as int)[i as int] != prefix@[i as int]);
            return false;
        }
        assert(text@.take(i + 1) =~= text@.take(i as int).push(text@[i as int]));
        assert(prefix@.take(i + 1) =~= prefix@.take(i as int).push(prefix@[i as int]));
        i += 1;
    }
    assert(prefix@.take(i as int) =~= prefix@);
    true
}

/// A number written by some digits is no smaller than the number written
/// by fewer of them from the start.
proof fn lemma_decimal_value_grows(digits: Seq<char>, shorter: int)
    requires
        0 <= shorter <= digits.len(),
    ensures
        decimal_value(digits.take(shorter)) <= decimal_value(digits),
    decreases digits.len(),
{
    if shorter == digits.len() {
        assert(digits.take(shorter) =~= digits);
    } else {
        assert(digits.drop_last().take(shorter) =~= digits.take(shorter));
        lemma_decimal_value_grows(digits.drop_last(), shorter);
    }
}

/// Reads the number that `text` writes, if it writes one.
pub fn parse_unsigned(text: &Vec<char>) -> (value: Option<u64>)
    ensures
        value == unsigned_of(text@),
{
    let len = text.len();
    let start: usize = if len > 0 && text[0] == '+' {
        1
    } else {
        0
    };
    let ghost digits = text@.skip(start as int);
    assert(digits =~= if text@.len() > 0 && text@[0] == '+' {
        text@.drop_first()
    } else {
        text@
    });
    if start == len {
        return None;
    }
    let mut value: u64 = 0;
    let mut i: usize = start;
    while i < len
        invariant
            start <= i <= len,
            len == text.len(),
            digits == (if text@.len() > 0 && text@[0] == '+' {
                text@.drop_first()
            } else {
                text@
            }),
            digits == text@.skip(start as int),
            all_digits(digits.take(i - start)),
            value == decimal_value(digits.take(i - start)),
        decreases len - i,
    {
        let c = text[i];
        assert(digits[i - start] == c);
        if c < '0' || c > '9' {
            assert(!is_digit(digits[i - start]));
            return None;
        }
        let digit: u64 = (c as u32 - '0' as u32) as u64;
        proof {
            let longer = digits.take(i - start + 1);
            assert(longer.drop_last() =~= digits.take(i - start));
            assert(longer.last() == c);
            assert(decimal_value(longer) == value * 10 + digit);
            lemma_decimal_value_grows(digits, i - start + 1);
        }
        if value > (u64::MAX - digit) / 10 {
            assert(value * 10 + digit > u64::MAX);
            return None;
        }
        value = value * 10 + digit;
        i += 1;
    }
    assert(digits.take(i - start) =~= digits);
    Some(value)
}

/// The part of `text` before its first equals sign.
pub fn field_before_equals(text: &Vec<char>, from: usize) -> (field: Vec<char>)
    requires
        from <= text.len(),
    ensures
        field@ == until_equals(text@.skip(from as int)),
{
    let mut end: usize = from;
    while end < text.len() && text[end] != '='
        invariant
            from <= end <= text.len(),
            forall|k: int| from <= k < end ==> text@[k] != '=',
        decreases text.len() - end,
    {
        end += 1;
    }
    let mut field: Vec<char> = Vec::new();
    let mut i: usize = from;
    while i < end
        invariant
            from <= i <= end <= text.len(),
            field@ == text@.subrange(from as int, i as int),
        decreases end - i,
    {
        field.push(text[i]);
        assert(text@.subrange(from as int, i + 1) =~= text@.subrange(from as int, i as int).push(
            text@[i as int],
        ));
        i += 1;
    }
    proof {
        lemma_until_equals(text@.skip(from as int), end - from);
        assert(text@.skip(from as int).take(end - from) =~= text@.subrange(
            from as int,
            end as int,
        ));
    }
    field
}

/// Where no equals sign stands before `end`, and one stands at `end` or
/// the text ends there, the part before the first equals sign is the part
/// before `end`.
proof fn lemma_until_equals(text: Seq<char>, end: int)
    requires
        0 <= end <= text.len(),
        forall|k: int| 0 <= k < end ==> text[k] != '=',
        end == text.len() || text[end] == '=',
    ensures
        until_equals(text) == text.take(end),
    decreases text.len(),
{
    if end == 0 {
        assert(text.take(0) =~= Seq::<char>::empty());
    } else {
        lemma_until_equals(text.drop_first(), end - 1);
        assert(text.take(end) =~= seq![text[0]] + text.drop_first().take(end - 1));
    }
}

/// Reads the length of a cache run from `argument`, where it is an
/// argument for that length at all.
pub fn parse_times(argument: &str) -> (times: Option<u64>)
    ensures
        times == times_of(argument@),
{
    let text = chars_of(argument);
    let prefix = chars_of("--times=");
    if !has_prefix(&text, &prefix) {
        return None;
    }
    let field = field_before_equals(&text, prefix.len());
    match parse_unsigned(&field) {
        Some(times) => Some(times),
        None => Some(DEFAULT_TIMES),
    }
}

/// Reads what the arguments ask for.
pub fn parse_command(args: &Vec<String>) -> (command: Command)
    ensures
        command == command_of(args.deep_view()),
{
    if args.len() < 2 {
        return Command::Usage;
    }
    let mode = chars_of(args[1].as_str());
    assert(args.deep_view()[1] == args@[1]@);
    if same_text(&mode, &chars_of("--mode=cache")) {
        if args.len() >= 3 {
            assert(args.deep_view()[2] == args@[2]@);
            match parse_times(args[2].as_str()) {
                Some(times) => Command::Cache(times),
                None => Command::CacheWithoutTimes,
            }
        } else {
            Command::CacheWithoutTimes
        }
    } else if same_text(&mode, &chars_of("--mode=read")) {
        Command::Read
    } else {
        Command::UnknownMode
    }
}

} // verus!
