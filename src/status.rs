use vstd::prelude::*;
use vstd::string::StrSliceExecFns;

use crate::model::Mode;

verus! {

/// The decimal digits of `n`, most significant first.
pub open spec fn decimal(n: nat) -> Seq<char>
    decreases n,
{
    if n < 10 {
        seq![digit_char(n)]
    } else {
        decimal(n / 10).push(digit_char(n % 10))
    }
}

pub open spec fn digit_char(d: nat) -> char {
    ((48 + d) as u8) as char
}

/// The label of window `i` (counted from 0) in the status bar: its number,
/// bracketed after `#` when it is the active one.
pub open spec fn window_label(i: nat, active: nat) -> Seq<char> {
    if i == active {
        seq!['#', '['] + decimal(i + 1) + seq![']']
    } else {
        decimal(i + 1)
    }
}

/// The labels of the first `n` windows, separated by single spaces.
pub open spec fn window_list(n: nat, active: nat) -> Seq<char>
    decreases n,
{
    if n == 0 {
        seq![]
    } else if n == 1 {
        window_label(0, active)
    } else {
        window_list((n - 1) as nat, active) + seq![' '] + window_label((n - 1) as nat, active)
    }
}

/// The mode indicator: nothing in passthrough, `PREFIX` after the prefix,
/// `:` at the prompt.
pub open spec fn mode_label(m: Mode) -> Seq<char> {
    match m {
        Mode::Passthrough => seq![],
        Mode::Prefix { .. } => seq!['P', 'R', 'E', 'F', 'I', 'X'],
        Mode::CommandPrompt { .. } => seq![':'],
    }
}

/// The status bar's text: ` mode | windows | time `.
pub open spec fn status_text(m: Mode, n: nat, active: nat, time: Seq<char>) -> Seq<char> {
    seq![' '] + mode_label(m) + seq![' ', '|', ' '] + window_list(n, active) + seq![' ', '|', ' ']
        + time + seq![' ']
}

fn push_str(out: &mut Vec<char>, s: &[char])
    ensures
        final(out)@ == old(out)@ + s@,
{
    let mut i: usize = 0;
    while i < s.len()
        invariant
            i <= s@.len(),
            out@ == old(out)@ + s@.take(i as int),
        decreases s@.len() - i,
    {
        out.push(s[i]);
        i = i + 1;
        assert(s@.take(i as int) =~= s@.take(i - 1) .push(s@[i - 1]));
    }
    assert(s@.take(s@.len() as int) =~= s@);
}

/// Appends the decimal digits of `n`.
fn push_decimal(out: &mut Vec<char>, n: usize)
    ensures
        final(out)@ == old(out)@ + decimal(n as nat),
    decreases n,
{
    if n >= 10 {
        push_decimal(out, n / 10);
    }
    let d: u8 = (n % 10) as u8;
    let c = (48 + d) as char;
    out.push(c);
}

/// The status bar's text for the given mode, number of windows, active
/// window and time of day.
pub fn status_line(m: &Mode, n: usize, active: usize, time: &Vec<char>) -> (r: Vec<char>)
    requires
        n < usize::MAX,
    ensures
        r@ == status_text(*m, n as nat, active as nat, time@),
{
    let mut out: Vec<char> = Vec::new();
    out.push(' ');
    match m {
        Mode::Passthrough => {},
        Mode::Prefix { .. } => push_str(&mut out, &['P', 'R', 'E', 'F', 'I', 'X']),
        Mode::CommandPrompt { .. } => out.push(':'),
    }
    push_str(&mut out, &[' ', '|', ' ']);
    let ghost head = out@;
    let mut i: usize = 0;
    while i < n
        invariant
            i <= n,
            n < usize::MAX,
            out@ == head + window_list(i as nat, active as nat),
        decreases n - i,
    {
        if i > 0 {
            out.push(' ');
        }
        if i == active {
            push_str(&mut out, &['#', '[']);
            push_decimal(&mut out, i + 1);
            out.push(']');
        } else {
            push_decimal(&mut out, i + 1);
        }
        i = i + 1;
    }
    push_str(&mut out, &[' ', '|', ' ']);
    let mut k: usize = 0;
    let ghost mid = out@;
    while k < time.len()
        invariant
            k <= time@.len(),
            out@ == mid + time@.take(k as int),
        decreases time@.len() - k,
    {
        out.push(time[k]);
        k = k + 1;
        assert(time@.take(k as int) =~= time@.take(k - 1).push(time@[k - 1]));
    }
    out.push(' ');
    assert(time@.take(time@.len() as int) =~= time@);
    assert(out@ =~= status_text(*m, n as nat, active as nat, time@));
    out
}

/// A time of day written `HH:MM`: two digits, a colon, two digits.
pub open spec fn is_clock_text(t: Seq<char>) -> bool {
    &&& t.len() == 5
    &&& is_digit_char(t[0]) && is_digit_char(t[1])
    &&& t[2] == ':'
    &&& is_digit_char(t[3]) && is_digit_char(t[4])
}

pub open spec fn is_digit_char(c: char) -> bool {
    '0' <= c <= '9'
}

/// The title of pane `i` (counted from 0) on its frame: `* pane n` for the
/// active pane and `  pane n` for the others, `n` counted from 1.
pub open spec fn title_text(i: nat, active: bool) -> Seq<char> {
    (if active { seq!['*', ' '] } else { seq![' ', ' '] }) + seq!['p', 'a', 'n', 'e', ' ']
        + decimal(i + 1)
}

/// The title drawn on the frame of pane `i`.
pub fn pane_title(i: usize, active: bool) -> (r: Vec<char>)
    requires
        i < usize::MAX,
    ensures
        r@ == title_text(i as nat, active),
{
    let mut out: Vec<char> = Vec::new();
    if active {
        push_str(&mut out, &['*', ' ']);
    } else {
        push_str(&mut out, &[' ', ' ']);
    }
    push_str(&mut out, &['p', 'a', 'n', 'e', ' ']);
    push_decimal(&mut out, i + 1);
    assert(out@ =~= title_text(i as nat, active));
    out
}

/// Relies on chrono::Local::now and its `format("%H:%M")`: the local time
/// of day, hour and minute each zero-padded to two digits. Which time it
/// is depends on the clock and the time zone; only the shape is promised.
#[verifier::external_body]
fn local_time() -> (r: String)
    ensures
        is_clock_text(r@),
{
    chrono::Local::now().format("%H:%M").to_string()
}

/// The status bar's text now: `status_line` with the local time of day.
pub fn status_line_now(m: &Mode, n: usize, active: usize) -> (r: Vec<char>)
    requires
        n < usize::MAX,
    ensures
        exists|t: Seq<char>| is_clock_text(t) && r@ == status_text(*m, n as nat, active as nat, t),
{
    let t = local_time();
    let tv = chars_of(t.as_str());
    status_line(m, n, active, &tv)
}

/// The characters of a string.
pub fn chars_of(s: &str) -> (r: Vec<char>)
    ensures
        r@ == s@,
{
    let n = s.unicode_len();
    let mut r: Vec<char> = Vec::new();
    let mut i: usize = 0;
    while i < n
        invariant
            n == s@.len(),
            i <= n,
            r@ == s@.take(i as int),
        decreases n - i,
    {
        r.push(s.get_char(i));
        i = i + 1;
        assert(r@ =~= s@.take(i as int));
    }
    assert(s@.take(n as int) =~= s@);
    r
}

} // verus!
