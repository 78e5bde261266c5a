//! The text that the overlay draws: the timer, a catalog entry's title
//! line, and its description broken into lines that fit the window.

use vstd::prelude::*;
use crate::catalog::GhostInformation;

verus! {

/// Relies on std's String::push: appends one character.
#[verifier::external_body]
fn push_char(s: &mut String, c: char)
    ensures
        final(s)@ == old(s)@.push(c),
{
    s.push(c);
}

/// Relies on std's String::push_str: appends the characters of `t`.
#[verifier::external_body]
fn push_str(s: &mut String, t: &str)
    ensures
        final(s)@ == old(s)@ + t@,
{
    s.push_str(t);
}

/// The character of decimal digit `d`.
pub open spec fn digit_char(d: nat) -> char {
    if d == 0 { '0' }
    else if d == 1 { '1' }
    else if d == 2 { '2' }
    else if d == 3 { '3' }
    else if d == 4 { '4' }
    else if d == 5 { '5' }
    else if d == 6 { '6' }
    else if d == 7 { '7' }
    else if d == 8 { '8' }
    else { '9' }
}

/// `n` written in decimal, without leading zeros.
pub open spec fn decimal(n: nat) -> Seq<char>
    decreases n,
{
    if n < 10 {
        seq![digit_char(n)]
    } else {
        decimal(n / 10).push(digit_char(n % 10))
    }
}

/// `s` padded on the left with zeros to at least two characters.
pub open spec fn pad2(s: Seq<char>) -> Seq<char> {
    if s.len() < 2 {
        Seq::new((2 - s.len()) as nat, |i: int| '0') + s
    } else {
        s
    }
}

/// The timer as drawn for a total of `secs` seconds: minutes and seconds,
/// each of at least two digits, joined by a colon.
pub open spec fn timer_spec(secs: nat) -> Seq<char> {
    pad2(decimal(secs / 60)) + seq![':'] + pad2(decimal(secs % 60))
}

/// The title line of catalog entry number `index`: its number, name, id
/// and speed.
pub open spec fn title_spec(index: nat, name: Seq<char>, id: Seq<char>, speed: Seq<char>) -> Seq<char> {
    decimal(index) + seq!['.', ' '] + name + seq![' ', '('] + id + seq![')', ' '] + speed
}

fn digit(d: u64) -> (c: char)
    requires
        d < 10,
    ensures
        c == digit_char(d as nat),
{
    if d == 0 { '0' }
    else if d == 1 { '1' }
    else if d == 2 { '2' }
    else if d == 3 { '3' }
    else if d == 4 { '4' }
    else if d == 5 { '5' }
    else if d == 6 { '6' }
    else if d == 7 { '7' }
    else if d == 8 { '8' }
    else { '9' }
}

/// Appends `n` in decimal.
fn push_decimal(s: &mut String, n: u64)
    ensures
        final(s)@ == old(s)@ + decimal(n as nat),
    decreases n,
{
    if n >= 10 {
        push_decimal(s, n / 10);
    }
    push_char(s, digit(n % 10));
    proof {
        if n >= 10 {
            assert(old(s)@ + decimal(n as nat) =~= old(s)@ + decimal((n / 10) as nat) + seq![
                digit_char((n % 10) as nat),
            ]);
        } else {
            assert(decimal(n as nat) =~= seq![digit_char((n % 10) as nat)]);
        }
    }
    assert(s@ =~= old(s)@ + decimal(n as nat));
}

/// Appends `n` in decimal, padded with zeros to at least two digits.
fn push_decimal2(s: &mut String, n: u64)
    ensures
        final(s)@ == old(s)@ + pad2(decimal(n as nat)),
{
    if n < 10 {
        push_char(s, '0');
        assert(decimal(n as nat).len() == 1);
    } else {
        proof {
            lemma_decimal_len_at_least_two(n as nat);
        }
    }
    push_decimal(s, n);
    assert(s@ =~= old(s)@ + pad2(decimal(n as nat)));
}

proof fn lemma_decimal_len_at_least_two(n: nat)
    requires
        n >= 10,
    ensures
        decimal(n).len() >= 2,
{
    assert(decimal(n / 10).len() >= 1) by {
        reveal_with_fuel(decimal, 2);
    }
}

/// Below a hundred minutes the timer is always five characters wide,
/// `MM:SS`, with the colon in the middle.
pub proof fn lemma_timer_width(secs: nat)
    requires
        secs < 6000,
    ensures
        timer_spec(secs).len() == 5,
        timer_spec(secs)[2] == ':',
{
    lemma_two_digits(secs / 60);
    lemma_two_digits(secs % 60);
}

proof fn lemma_two_digits(n: nat)
    requires
        n < 100,
    ensures
        pad2(decimal(n)).len() == 2,
{
    reveal_with_fuel(decimal, 2);
}

/// The timer text for a total of `secs` seconds, as `MM:SS`; minutes past
/// 99 take as many digits as they need.
pub fn timer_text(secs: u64) -> (r: String)
    ensures
        r@ == timer_spec(secs as nat),
{
    let mut s = String::new();
    push_decimal2(&mut s, secs / 60);
    push_char(&mut s, ':');
    push_decimal2(&mut s, secs % 60);
    assert(s@ =~= timer_spec(secs as nat));
    s
}

/// The title line of catalog entry number `index`, as `N. name (id) speed`.
pub fn ghost_title(index: usize, ghost: &GhostInformation) -> (r: String)
    ensures
        r@ == title_spec(index as nat, ghost.name@, ghost.id@, ghost.speed@),
{
    let mut s = String::new();
    push_decimal(&mut s, index as u64);
    push_char(&mut s, '.');
    push_char(&mut s, ' ');
    push_str(&mut s, ghost.name.as_str());
    push_char(&mut s, ' ');
    push_char(&mut s, '(');
    push_str(&mut s, ghost.id.as_str());
    push_char(&mut s, ')');
    push_char(&mut s, ' ');
    push_str(&mut s, ghost.speed.as_str());
    assert(s@ =~= title_spec(index as nat, ghost.name@, ghost.id@, ghost.speed@));
    s
}

/// The text and the width of the current line after laying out the first
/// `i` characters of `chars`, whose advances (widths in pixels) are `adv`.
/// A line starts `margin` wide. Each character adds its advance; a newline
/// starts a new line, and a character that brings the line to `width` or
/// more goes, with a newline before it, to the start of a new line.
pub open spec fn wrap_state(chars: Seq<char>, adv: Seq<u32>, margin: int, width: int, i: nat) -> (
    Seq<char>,
    int,
)
    decreases i,
{
    if i == 0 {
        (Seq::empty(), margin)
    } else {
        let (out, line) = wrap_state(chars, adv, margin, width, (i - 1) as nat);
        let c = chars[i - 1];
        let a = adv[i - 1] as int;
        if c == '\n' {
            (out.push(c), margin)
        } else if line + a >= width {
            (out.push('\n').push(c), a + margin)
        } else {
            (out.push(c), line + a)
        }
    }
}

/// `chars` broken into lines that fit `width`, as `wrap_state` lays them out.
pub open spec fn wrap_spec(chars: Seq<char>, adv: Seq<u32>, margin: int, width: int) -> Seq<char> {
    wrap_state(chars, adv, margin, width, chars.len()).0
}

/// Keeps every character but the newline.
pub open spec fn not_newline() -> spec_fn(char) -> bool {
    |c: char| c != '\n'
}

proof fn lemma_filter_push(s: Seq<char>, x: char, pred: spec_fn(char) -> bool)
    ensures
        s.push(x).filter(pred) == (if pred(x) {
            s.filter(pred).push(x)
        } else {
            s.filter(pred)
        }),
{
    reveal(Seq::filter);
    assert(s.push(x).drop_last() =~= s);
}

proof fn lemma_wrap_state_keeps_text(chars: Seq<char>, adv: Seq<u32>, margin: int, width: int, i: nat)
    requires
        i <= chars.len(),
    ensures
        wrap_state(chars, adv, margin, width, i).0.filter(not_newline()) == chars.subrange(
            0,
            i as int,
        ).filter(not_newline()),
    decreases i,
{
    let p = not_newline();
    if i == 0 {
        reveal(Seq::filter);
        assert(chars.subrange(0, 0) =~= Seq::<char>::empty());
    } else {
        lemma_wrap_state_keeps_text(chars, adv, margin, width, (i - 1) as nat);
        let out = wrap_state(chars, adv, margin, width, (i - 1) as nat).0;
        let c = chars[i - 1];
        assert(chars.subrange(0, i as int) =~= chars.subrange(0, i - 1).push(c));
        lemma_filter_push(chars.subrange(0, i - 1), c, p);
        lemma_filter_push(out, c, p);
        lemma_filter_push(out, '\n', p);
        lemma_filter_push(out.push('\n'), c, p);
    }
}

/// Laying text out only inserts line breaks: with the newlines taken out,
/// the result is the text with its newlines taken out.
pub proof fn lemma_wrap_only_inserts_newlines(chars: Seq<char>, adv: Seq<u32>, margin: int, width: int)
    ensures
        wrap_spec(chars, adv, margin, width).filter(not_newline()) == chars.filter(not_newline()),
{
    lemma_wrap_state_keeps_text(chars, adv, margin, width, chars.len());
    assert(chars.subrange(0, chars.len() as int) =~= chars);
}

/// Breaks `text` into lines for a window `width` pixels wide, where the
/// characters of `text` are `advances[i]` pixels wide and each line starts
/// `margin` pixels in.
pub fn wrap_text(text: &str, advances: &Vec<u32>, margin: u32, width: u32) -> (r: String)
    requires
        advances@.len() == text@.len(),
    ensures
        r@ == wrap_spec(text@, advances@, margin as int, width as int),
{
    let n = text.unicode_len();
    let mut out = String::new();
    let mut line: u64 = margin as u64;
    let mut i: usize = 0;
    while i < n
        invariant
            n == text@.len(),
            advances@.len() == n,
            i <= n,
            line <= 2 * (u32::MAX as u64),
            (out@, line as int) == wrap_state(text@, advances@, margin as int, width as int, i as nat),
        decreases n - i,
    {
        let c = text.get_char(i);
        let a: u64 = advances[i] as u64;
        if c == '\n' {
            push_char(&mut out, c);
            line = margin as u64;
        } else if line + a >= width as u64 {
            push_char(&mut out, '\n');
            push_char(&mut out, c);
            line = a + margin as u64;
        } else {
            push_char(&mut out, c);
            line = line + a;
        }
        i = i + 1;
    }
    out
}

} // verus!
