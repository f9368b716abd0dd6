//! The inline escape-code mini-language: `\<kind>[<args>]`.
//!
//! The trigger character has already been read; scanning starts right after
//! it and runs to the next `]`. The first character of the body selects the
//! kind, the second separates kind from a comma-separated argument list, of
//! which only the first argument is read.

use vstd::prelude::*;

verus! {

/// The default size that a malformed size argument falls back to.
pub const DEFAULT_FONT_SIZE: u32 = 18;

/// A code as read from the text; a colour is still a palette id here.
#[derive(Clone, Copy, Debug, PartialEq, Eq, Structural)]
pub enum EscapeCode {
    Icon(usize),
    Color(u32),
    Size(u32),
    Pause(u32),
    Unknown,
}

pub open spec fn is_digit(c: char) -> bool {
    '0' <= c && c <= '9'
}

pub open spec fn digit_value(c: char) -> nat {
    if is_digit(c) { (c as int - '0' as int) as nat } else { 0 }
}

/// The value of a string of decimal digits, most significant first.
pub open spec fn decimal_value(s: Seq<char>) -> nat
    decreases s.len(),
{
    if s.len() == 0 {
        0
    } else {
        decimal_value(s.drop_last()) * 10 + digit_value(s.last())
    }
}

/// The digits of an unsigned number: an optional leading `+` is dropped.
pub open spec fn unsigned_digits(s: Seq<char>) -> Seq<char> {
    if s.len() > 0 && s[0] == '+' { s.drop_first() } else { s }
}

/// An unsigned decimal number no greater than `max`: at least one ASCII
/// digit, after an optional `+`, and nothing else.
pub open spec fn parse_unsigned_spec(s: Seq<char>, max: nat) -> Option<nat> {
    let d = unsigned_digits(s);
    if d.len() > 0 && (forall|i: int| 0 <= i < d.len() ==> is_digit(#[trigger] d[i]))
        && decimal_value(d) <= max {
        Some(decimal_value(d))
    } else {
        None
    }
}

/// The index of the first `]` at or after `i`, or the length of the text.
pub open spec fn code_end(text: Seq<char>, i: int) -> int
    decreases text.len() - i,
{
    if i >= text.len() {
        text.len() as int
    } else if text[i] == ']' {
        i
    } else {
        code_end(text, i + 1)
    }
}

/// Where reading resumes after the code that starts at `start`: past the
/// closing `]`, or at the end of the text where there is none.
pub open spec fn code_resume(text: Seq<char>, start: int) -> int {
    let e = code_end(text, start);
    if e < text.len() { e + 1 } else { text.len() as int }
}

/// The index of the first `,` in `s` at or after `i`, or the length of `s`.
pub open spec fn field_end(s: Seq<char>, i: int) -> int
    decreases s.len() - i,
{
    if i >= s.len() {
        s.len() as int
    } else if s[i] == ',' {
        i
    } else {
        field_end(s, i + 1)
    }
}

/// The body of the code between `start` and the closing `]`.
pub open spec fn code_body(text: Seq<char>, start: int) -> Seq<char> {
    text.subrange(start, code_end(text, start))
}

/// The first argument: after the kind and its separator, up to the first `,`.
pub open spec fn first_argument(body: Seq<char>) -> Seq<char> {
    if body.len() < 2 {
        Seq::empty()
    } else {
        let args = body.subrange(2, body.len() as int);
        args.subrange(0, field_end(args, 0))
    }
}

/// The code whose body starts at `start`. A malformed number gives the kind's
/// default: icon 0, palette id 0, size 18, no pause.
pub open spec fn escape_code_spec(text: Seq<char>, start: int) -> EscapeCode {
    let body = code_body(text, start);
    let arg = first_argument(body);
    if body.len() == 0 {
        EscapeCode::Unknown
    } else if body[0] == 'i' {
        EscapeCode::Icon(
            match parse_unsigned_spec(arg, usize::MAX as nat) {
                Some(v) => v as usize,
                None => 0,
            },
        )
    } else if body[0] == 'c' {
        EscapeCode::Color(
            match parse_unsigned_spec(arg, u32::MAX as nat) {
                Some(v) => v as u32,
                None => 0,
            },
        )
    } else if body[0] == 's' {
        EscapeCode::Size(
            match parse_unsigned_spec(arg, u32::MAX as nat) {
                Some(v) => v as u32,
                None => DEFAULT_FONT_SIZE,
            },
        )
    } else if body[0] == 'p' {
        EscapeCode::Pause(
            match parse_unsigned_spec(arg, u32::MAX as nat) {
                Some(v) => v as u32,
                None => 0,
            },
        )
    } else {
        EscapeCode::Unknown
    }
}

/// Reading resumes no earlier than the body's start and no later than the
/// end of the text.
pub proof fn lemma_code_resume_bounds(text: Seq<char>, start: int)
    requires
        0 <= start <= text.len(),
    ensures
        start <= code_end(text, start) <= text.len(),
        start <= code_resume(text, start) <= text.len(),
    decreases text.len() - start,
{
    if start < text.len() && text[start] != ']' {
        lemma_code_resume_bounds(text, start + 1);
    }
}

proof fn lemma_decimal_value_prefix(s: Seq<char>, i: int)
    requires
        0 <= i <= s.len(),
    ensures
        decimal_value(s.subrange(0, i)) <= decimal_value(s),
    decreases s.len() - i,
{
    if i < s.len() {
        lemma_decimal_value_prefix(s, i + 1);
        let p = s.subrange(0, i + 1);
        assert(p.drop_last() =~= s.subrange(0, i));
    } else {
        assert(s.subrange(0, i) =~= s);
    }
}

/// Reads `text[from..to]` as an unsigned decimal number no greater than `max`.
pub fn parse_unsigned(text: &Vec<char>, from: usize, to: usize, max: u64) -> (r: Option<u64>)
    requires
        from <= to <= text.len(),
    ensures
        r matches Some(v) ==> parse_unsigned_spec(text@.subrange(from as int, to as int), max as nat)
            == Some(v as nat),
        r is None ==> parse_unsigned_spec(text@.subrange(from as int, to as int), max as nat)
            is None,
{
    let ghost s = text@.subrange(from as int, to as int);
    let mut start = from;
    if from < to && text[from] == '+' {
        start = from + 1;
    }
    let ghost d = text@.subrange(start as int, to as int);
    assert(d =~= unsigned_digits(s));
    if start == to {
        return None;
    }
    let mut value: u64 = 0;
    let mut i = start;
    while i < to
        invariant
            start <= i <= to <= text.len(),
            d == text@.subrange(start as int, to as int),
            s == text@.subrange(from as int, to as int),
            d == unsigned_digits(s),
            value as nat == decimal_value(d.subrange(0, i - start)),
            value <= max,
            forall|k: int| 0 <= k < i - start ==> is_digit(#[trigger] d[k]),
        decreases to - i,
    {
        let c = text[i];
        if !('0' <= c && c <= '9') {
            assert(d[i - start] == c);
            assert(!is_digit(d[i - start]));
            return None;
        }
        let digit = (c as u32 - '0' as u32) as u64;
        let ghost p = d.subrange(0, i + 1 - start);
        assert(p.drop_last() =~= d.subrange(0, i - start));
        assert(p.last() == c);
        assert(decimal_value(p) == value * 10 + digit);
        if digit > max || value > (max - digit) / 10 {
            proof {
                assert(value * 10 + digit > max) by (nonlinear_arith)
                    requires digit > max || value > (max - digit) / 10, value >= 0;
                lemma_decimal_value_prefix(d, i + 1 - start);
            }
            return None;
        }
        proof {
            assert(value * 10 + digit <= max) by (nonlinear_arith)
                requires value <= (max - digit) / 10, digit <= max;
        }
        value = value * 10 + digit;
        i = i + 1;
    }
    assert(d.subrange(0, i - start) =~= d);
    Some(value)
}

/// Reads the code whose body starts at `start`, right after the trigger
/// character, and gives it with the index where reading resumes.
pub fn read_escape_code(text: &Vec<char>, start: usize) -> (r: (EscapeCode, usize))
    requires
        start <= text.len(),
    ensures
        r.0 == escape_code_spec(text@, start as int),
        r.1 as int == code_resume(text@, start as int),
{
    let mut end = start;
    while end < text.len() && text[end] != ']'
        invariant
            start <= end <= text.len(),
            code_end(text@, end as int) == code_end(text@, start as int),
        decreases text.len() - end,
    {
        end = end + 1;
    }
    let resume = if end < text.len() { end + 1 } else { end };
    let ghost body = code_body(text@, start as int);
    assert(body =~= text@.subrange(start as int, end as int));
    if end == start {
        return (EscapeCode::Unknown, resume);
    }
    let kind = text[start];
    let mut arg_from = end;
    let mut arg_to = end;
    if end - start >= 2 {
        arg_from = start + 2;
        let ghost args = body.subrange(2, body.len() as int);
        assert(args =~= text@.subrange(arg_from as int, end as int));
        arg_to = arg_from;
        while arg_to < end && text[arg_to] != ','
            invariant
                arg_from <= arg_to <= end <= text.len(),
                args == text@.subrange(arg_from as int, end as int),
                field_end(args, arg_to - arg_from) == field_end(args, 0),
            decreases end - arg_to,
        {
            arg_to = arg_to + 1;
        }
        assert(first_argument(body) =~= text@.subrange(arg_from as int, arg_to as int));
    } else {
        assert(first_argument(body) =~= text@.subrange(arg_from as int, arg_to as int));
    }
    let code = if kind == 'i' {
        match parse_unsigned(text, arg_from, arg_to, usize::MAX as u64) {
            Some(v) => EscapeCode::Icon(v as usize),
            None => EscapeCode::Icon(0),
        }
    } else if kind == 'c' {
        match parse_unsigned(text, arg_from, arg_to, u32::MAX as u64) {
            Some(v) => EscapeCode::Color(v as u32),
            None => EscapeCode::Color(0),
        }
    } else if kind == 's' {
        match parse_unsigned(text, arg_from, arg_to, u32::MAX as u64) {
            Some(v) => EscapeCode::Size(v as u32),
            None => EscapeCode::Size(DEFAULT_FONT_SIZE),
        }
    } else if kind == 'p' {
        match parse_unsigned(text, arg_from, arg_to, u32::MAX as u64) {
            Some(v) => EscapeCode::Pause(v as u32),
            None => EscapeCode::Pause(0),
        }
    } else {
        EscapeCode::Unknown
    };
    (code, resume)
}

} // verus!
