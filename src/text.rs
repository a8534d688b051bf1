//! Terminal control sequences and the text helpers the renderer builds on.
use vstd::prelude::*;

verus! {

/// The decimal digit for `d`, which is below ten.
pub open spec fn digit_char(d: nat) -> char {
    if d == 0 { '0' }
    else if d == 1 { '1' }
    else if d == 2 { '2' }
    else if d == 3 { '3' }
    else if d == 4 { '4' }
    else if d == 5 { '5' }
    else if d == 6 { '6' }
    else if d == 7 { '7' }
    else if d == 8 { '8' }
    else { '9' }
}

/// `n` written in decimal, without leading zeros.
pub open spec fn decimal(n: nat) -> Seq<char>
    decreases n,
{
    if n < 10 {
        seq![digit_char(n)]
    } else {
        decimal(n / 10).push(digit_char(n % 10))
    }
}

/// The control sequence introducer, `ESC [`.
pub open spec fn csi() -> Seq<char> {
    seq!['\x1b', '[']
}

/// The sequence that moves the cursor to column `col` of row `row`.
pub open spec fn goto_text(col: u16, row: u16) -> Seq<char> {
    csi() + decimal(row as nat) + seq![';'] + decimal(col as nat) + seq!['H']
}

/// The sequence that clears the line the cursor is on.
pub open spec fn clear_line_text() -> Seq<char> {
    csi() + seq!['2', 'K']
}

/// Relies on termion's `From<cursor::Goto> for String`: `ESC [`, the row
/// and the column in decimal, separated by `;`, and `H`.
#[verifier::external_body]
pub(crate) fn goto(col: u16, row: u16) -> (r: String)
    ensures
        r@ == goto_text(col, row),
{
    String::from(termion::cursor::Goto(col, row))
}

/// Relies on termion's `clear::CurrentLine` as a `str`: `ESC [ 2 K`.
#[verifier::external_body]
pub(crate) fn clear_line() -> (r: String)
    ensures
        r@ == clear_line_text(),
{
    let s: &str = termion::clear::CurrentLine.as_ref();
    s.to_string()
}

/// Relies on std's `String::push`: the character is appended.
#[verifier::external_body]
pub(crate) fn push_char(s: &mut String, c: char)
    ensures
        final(s)@ == old(s)@.push(c),
{
    s.push(c)
}

/// Appends the characters of `chars` to `s`.
pub(crate) fn push_chars(s: &mut String, chars: &Vec<char>)
    ensures
        final(s)@ == old(s)@ + chars@,
{
    let mut i: usize = 0;
    while i < chars.len()
        invariant
            i <= chars@.len(),
            s@ == old(s)@ + chars@.subrange(0, i as int),
        decreases chars@.len() - i,
    {
        push_char(s, chars[i]);
        i = i + 1;
        assert(chars@.subrange(0, i as int) == chars@.subrange(0, i - 1).push(chars@[i - 1]));
    }
    assert(chars@.subrange(0, i as int) == chars@);
}

/// The characters of `chars` as a `String`.
pub(crate) fn string_of(chars: &Vec<char>) -> (r: String)
    ensures
        r@ == chars@,
{
    let mut s = String::new();
    push_chars(&mut s, chars);
    assert(s@ == Seq::<char>::empty() + chars@);
    assert(Seq::<char>::empty() + chars@ == chars@);
    s
}

} // verus!
