use vstd::prelude::*;
use vstd::string::StrSliceExecFns;

use crate::model::LayoutKind;

verus! {

/// A command typed at the prompt, once its words are read.
#[derive(Clone, Copy, Debug, PartialEq, Eq, Structural)]
pub enum Command {
    /// An empty line, an unknown verb, or a verb whose arguments do not apply.
    Nothing,
    NewWindow,
    SplitWindow(LayoutKind),
    KillPane,
    NextWindow,
    PreviousWindow,
    /// Select the window of this number, counted from 1.
    SelectWindow(usize),
}

/// The characters that separate words on the command line (Unicode's
/// White_Space property).
pub open spec fn is_ws(c: char) -> bool {
    ||| '\u{9}' <= c <= '\u{d}'
    ||| c == ' '
    ||| c == '\u{85}'
    ||| c == '\u{a0}'
    ||| c == '\u{1680}'
    ||| '\u{2000}' <= c <= '\u{200a}'
    ||| c == '\u{2028}'
    ||| c == '\u{2029}'
    ||| c == '\u{202f}'
    ||| c == '\u{205f}'
    ||| c == '\u{3000}'
}

/// The words of `s`: its maximal runs of non-whitespace characters, in order.
pub open spec fn words(s: Seq<char>) -> Seq<Seq<char>>
    decreases s.len(),
{
    if s.len() == 0 {
        seq![]
    } else {
        let pre = words(s.drop_last());
        let c = s.last();
        if is_ws(c) {
            pre
        } else if s.len() >= 2 && !is_ws(s[s.len() - 2]) {
            pre.drop_last().push(pre.last().push(c))
        } else {
            pre.push(seq![c])
        }
    }
}

proof fn lemma_words_nonempty(s: Seq<char>)
    requires
        s.len() > 0,
        !is_ws(s.last()),
    ensures
        words(s).len() > 0,
{
}

pub fn is_whitespace(c: char) -> (r: bool)
    ensures
        r == is_ws(c),
{
    ('\u{9}' <= c && c <= '\u{d}') || c == ' ' || c == '\u{85}' || c == '\u{a0}' || c == '\u{1680}'
        || ('\u{2000}' <= c && c <= '\u{200a}') || c == '\u{2028}' || c == '\u{2029}'
        || c == '\u{202f}' || c == '\u{205f}' || c == '\u{3000}'
}

pub open spec fn views(v: Seq<Vec<char>>) -> Seq<Seq<char>> {
    v.map_values(|t: Vec<char>| t@)
}

/// Splits a command line into its words.
pub fn split_words(s: &Vec<char>) -> (r: Vec<Vec<char>>)
    ensures
        views(r@) == words(s@),
{
    let mut r: Vec<Vec<char>> = Vec::new();
    let mut i: usize = 0;
    while i < s.len()
        invariant
            i <= s@.len(),
            views(r@) == words(s@.take(i as int)),
        decreases s@.len() - i,
    {
        let c = s[i];
        let ghost t = s@.take(i as int + 1);
        assert(t.drop_last() =~= s@.take(i as int));
        assert(t.last() == c);
        if is_whitespace(c) {
        } else if i >= 1 && !is_whitespace(s[i - 1]) {
            assert(t[t.len() - 2] == s@[i - 1]);
            proof {
                lemma_words_nonempty(s@.take(i as int));
            }
            let mut last = r.pop().unwrap();
            last.push(c);
            r.push(last);
            assert(views(r@) =~= words(t));
        } else {
            let mut w: Vec<char> = Vec::new();
            w.push(c);
            r.push(w);
            assert(views(r@) =~= words(t));
        }
        i = i + 1;
    }
    assert(s@.take(s@.len() as int) =~= s@);
    r
}


pub open spec fn is_digit(c: char) -> bool {
    '0' <= c <= '9'
}

/// The number that a run of decimal digits spells.
pub open spec fn digits_value(s: Seq<char>) -> nat
    decreases s.len(),
{
    if s.len() == 0 {
        0
    } else {
        digits_value(s.drop_last()) * 10 + (s.last() as nat - '0' as nat) as nat
    }
}

/// A number's digits: all of it but a leading `+`.
pub open spec fn number_part(s: Seq<char>) -> Seq<char> {
    if s.len() > 0 && s[0] == '+' {
        s.drop_first()
    } else {
        s
    }
}

pub open spec fn all_digits(d: Seq<char>) -> bool {
    forall|i: int| 0 <= i < d.len() ==> is_digit(#[trigger] d[i])
}

/// What reading `s` as an unsigned machine-size number gives: an optional
/// `+`, then one or more decimal digits, with a value that fits.
pub open spec fn usize_of(s: Seq<char>) -> Option<usize> {
    let d = number_part(s);
    if d.len() > 0 && all_digits(d) && digits_value(d) <= usize::MAX {
        Some(digits_value(d) as usize)
    } else {
        None
    }
}

/// Reads a word as an unsigned number; `None` where it is not one or does
/// not fit.
pub fn parse_usize(s: &Vec<char>) -> (r: Option<usize>)
    ensures
        r == usize_of(s@),
{
    let start: usize = if s.len() > 0 && s[0] == '+' { 1 } else { 0 };
    let ghost d = number_part(s@);
    if start >= s.len() {
        assert(d.len() == 0);
        return None;
    }
    let mut acc: usize = 0;
    let mut overflow: bool = false;
    let mut k: usize = start;
    while k < s.len()
        invariant
            start <= k <= s@.len(),
            start < s@.len(),
            d == number_part(s@),
            d == s@.subrange(start as int, s@.len() as int),
            forall|i: int| 0 <= i < k - start ==> is_digit(#[trigger] d[i]),
            !overflow ==> acc == digits_value(d.take(k - start)),
            overflow ==> digits_value(d.take(k - start)) > usize::MAX,
        decreases s@.len() - k,
    {
        let c = s[k];
        if c < '0' || c > '9' {
            assert(d[k - start] == s@[k as int]);
            assert(!is_digit(d[k - start]));
            assert(!all_digits(d));
            return None;
        }
        let ghost prev = d.take(k - start);
        let ghost next = d.take(k - start + 1);
        assert(next.drop_last() =~= prev);
        assert(next.last() == c);
        let dig: usize = (c as u32 - '0' as u32) as usize;
        assert(digits_value(next) == digits_value(prev) * 10 + dig);
        if !overflow {
            match acc.checked_mul(10) {
                Some(m) => match m.checked_add(dig) {
                    Some(v) => {
                        acc = v;
                    },
                    None => {
                        overflow = true;
                    },
                },
                None => {
                    overflow = true;
                    assert(digits_value(prev) * 10 > usize::MAX);
                },
            }
        } else {
            assert(digits_value(prev) * 10 >= digits_value(prev)) by (nonlinear_arith);
        }
        k = k + 1;
    }
    assert(d.take(d.len() as int) =~= d);
    if overflow {
        None
    } else {
        Some(acc)
    }
}

/// Whether a word is exactly the given text.
pub fn word_is(t: &Vec<char>, w: &str) -> (r: bool)
    ensures
        r == (t@ == w@),
{
    let n = w.unicode_len();
    if t.len() != n {
        return false;
    }
    let mut i: usize = 0;
    while i < n
        invariant
            n == w@.len(),
            t@.len() == n,
            i <= n,
            forall|k: int| 0 <= k < i ==> t@[k] == w@[k],
        decreases n - i,
    {
        if t[i] != w.get_char(i) {
            return false;
        }
        i = i + 1;
    }
    assert(t@ =~= w@);
    true
}


/// The first position at or after `from` where `ws` holds `w`.
pub open spec fn find_word(ws: Seq<Seq<char>>, w: Seq<char>, from: int) -> Option<int>
    decreases ws.len() - from,
{
    if from < 0 || from >= ws.len() {
        None
    } else if ws[from] == w {
        Some(from)
    } else {
        find_word(ws, w, from + 1)
    }
}

/// The command that a line's words make. The first word is the verb;
/// `split-window` splits side by side when any word is `-h`, and
/// `select-window` takes the number after the first `-t`.
pub open spec fn command_of(ws: Seq<Seq<char>>) -> Command {
    if ws.len() == 0 {
        Command::Nothing
    } else if ws[0] == "new-window"@ {
        Command::NewWindow
    } else if ws[0] == "split-window"@ {
        Command::SplitWindow(
            if ws.contains("-h"@) {
                LayoutKind::Horizontal
            } else {
                LayoutKind::Vertical
            },
        )
    } else if ws[0] == "kill-pane"@ {
        Command::KillPane
    } else if ws[0] == "next-window"@ {
        Command::NextWindow
    } else if ws[0] == "previous-window"@ {
        Command::PreviousWindow
    } else if ws[0] == "select-window"@ {
        match find_word(ws, "-t"@, 0) {
            Some(t) => if t + 1 < ws.len() && usize_of(ws[t + 1]) is Some {
                Command::SelectWindow(usize_of(ws[t + 1])->Some_0)
            } else {
                Command::Nothing
            },
            None => Command::Nothing,
        }
    } else {
        Command::Nothing
    }
}

/// Whether any of the words is `w`.
fn any_word_is(ws: &Vec<Vec<char>>, w: &str) -> (r: bool)
    ensures
        r == views(ws@).contains(w@),
{
    let mut i: usize = 0;
    while i < ws.len()
        invariant
            i <= ws@.len(),
            forall|k: int| 0 <= k < i ==> ws@[k]@ != w@,
        decreases ws@.len() - i,
    {
        if word_is(&ws[i], w) {
            assert(views(ws@)[i as int] == w@);
            return true;
        }
        i = i + 1;
    }
    assert forall|k: int| 0 <= k < views(ws@).len() implies views(ws@)[k] != w@ by {
        assert(ws@[k]@ != w@);
    }
    false
}

/// The position of the first word that is `w`, if any.
fn position_of(ws: &Vec<Vec<char>>, w: &str) -> (r: Option<usize>)
    ensures
        r matches Some(t) ==> t < ws@.len() && find_word(views(ws@), w@, 0) == Some(t as int),
        r is None ==> find_word(views(ws@), w@, 0) is None,
{
    let ghost v = views(ws@);
    let mut i: usize = 0;
    while i < ws.len()
        invariant
            i <= ws@.len(),
            v == views(ws@),
            find_word(v, w@, 0) == find_word(v, w@, i as int),
        decreases ws@.len() - i,
    {
        if word_is(&ws[i], w) {
            return Some(i);
        }
        i = i + 1;
    }
    None
}

/// Reads a command line typed at the prompt.
pub fn parse_command(line: &Vec<char>) -> (r: Command)
    ensures
        r == command_of(words(line@)),
{
    let ws = split_words(line);
    let ghost v = views(ws@);
    if ws.len() == 0 {
        return Command::Nothing;
    }
    let verb = &ws[0];
    assert(v[0] == verb@);
    if word_is(verb, "new-window") {
        Command::NewWindow
    } else if word_is(verb, "split-window") {
        if any_word_is(&ws, "-h") {
            Command::SplitWindow(LayoutKind::Horizontal)
        } else {
            Command::SplitWindow(LayoutKind::Vertical)
        }
    } else if word_is(verb, "kill-pane") {
        Command::KillPane
    } else if word_is(verb, "next-window") {
        Command::NextWindow
    } else if word_is(verb, "previous-window") {
        Command::PreviousWindow
    } else if word_is(verb, "select-window") {
        match position_of(&ws, "-t") {
            Some(t) => {
                if t + 1 < ws.len() {
                    assert(v[t + 1] == ws@[t + 1]@);
                    match parse_usize(&ws[t + 1]) {
                        Some(n) => Command::SelectWindow(n),
                        None => Command::Nothing,
                    }
                } else {
                    Command::Nothing
                }
            },
            None => Command::Nothing,
        }
    } else {
        Command::Nothing
    }
}

} // verus!
