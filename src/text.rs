//! Fixed-width text layout: padding and decimal numerals.

use vstd::prelude::*;
use vstd::string::*;

verus! {

/// `n` copies of `c`.
pub open spec fn repeated(c: char, n: nat) -> Seq<char> {
    Seq::new(n, |_i: int| c)
}

/// `n` blanks.
pub open spec fn spaces(n: nat) -> Seq<char> {
    repeated(' ', n)
}

/// The decimal numeral of `n`, with leading zeros to `width` digits.
pub open spec fn zero_padded(n: nat, width: nat) -> Seq<char> {
    if decimal(n).len() < width {
        repeated('0', (width - decimal(n).len()) as nat) + decimal(n)
    } else {
        decimal(n)
    }
}

/// `s` left-justified in a field of `width` characters; longer text is kept whole.
pub open spec fn pad_right(s: Seq<char>, width: nat) -> Seq<char> {
    if s.len() < width {
        s + spaces((width - s.len()) as nat)
    } else {
        s
    }
}

/// `s` right-justified in a field of `width` characters; longer text is kept whole.
pub open spec fn pad_left(s: Seq<char>, width: nat) -> Seq<char> {
    if s.len() < width {
        spaces((width - s.len()) as nat) + s
    } else {
        s
    }
}

/// The ASCII digit for `d < 10`.
pub open spec fn digit_char(d: nat) -> char {
    if d == 0 { '0' }
    else if d == 1 { '1' }
    else if d == 2 { '2' }
    else if d == 3 { '3' }
    else if d == 4 { '4' }
    else if d == 5 { '5' }
    else if d == 6 { '6' }
    else if d == 7 { '7' }
    else if d == 8 { '8' }
    else { '9' }
}

/// The decimal numeral of `n`, without leading zeros.
pub open spec fn decimal(n: nat) -> Seq<char>
    decreases n,
{
    if n < 10 {
        seq![digit_char(n)]
    } else {
        decimal(n / 10) + seq![digit_char(n % 10)]
    }
}

fn digit_str(d: usize) -> (r: &'static str)
    requires
        d < 10,
    ensures
        r@ == seq![digit_char(d as nat)],
{
    proof {
        reveal_strlit("0");
        reveal_strlit("1");
        reveal_strlit("2");
        reveal_strlit("3");
        reveal_strlit("4");
        reveal_strlit("5");
        reveal_strlit("6");
        reveal_strlit("7");
        reveal_strlit("8");
        reveal_strlit("9");
    }
    if d == 0 { "0" }
    else if d == 1 { "1" }
    else if d == 2 { "2" }
    else if d == 3 { "3" }
    else if d == 4 { "4" }
    else if d == 5 { "5" }
    else if d == 6 { "6" }
    else if d == 7 { "7" }
    else if d == 8 { "8" }
    else { "9" }
}

/// The decimal numeral of `n`.
pub fn decimal_text(n: usize) -> (r: String)
    ensures
        r@ == decimal(n as nat),
    decreases n,
{
    if n < 10 {
        String::from_str(digit_str(n))
    } else {
        let mut r = decimal_text(n / 10);
        r.append(digit_str(n % 10));
        r
    }
}

/// Appends `count` copies of the one character of `piece` to `r`.
fn push_repeated(r: &mut String, piece: &str, count: usize)
    requires
        piece@.len() == 1,
    ensures
        final(r)@ == old(r)@ + repeated(piece@[0], count as nat),
{
    let mut k: usize = 0;
    while k < count
        invariant
            k <= count,
            piece@.len() == 1,
            r@ == old(r)@ + repeated(piece@[0], k as nat),
        decreases count - k,
    {
        let ghost before = r@;
        r.append(piece);
        k = k + 1;
        assert(r@ =~= before + seq![piece@[0]]);
        assert(r@ =~= old(r)@ + repeated(piece@[0], k as nat));
    }
}

/// Appends `count` blanks to `r`.
pub fn push_spaces(r: &mut String, count: usize)
    ensures
        final(r)@ == old(r)@ + spaces(count as nat),
{
    let blank = " ";
    proof {
        reveal_strlit(" ");
    }
    push_repeated(r, blank, count);
}

/// The decimal numeral of `n` with leading zeros to `width` digits.
pub fn zero_padded_text(n: usize, width: usize) -> (r: String)
    ensures
        r@ == zero_padded(n as nat, width as nat),
{
    let digits = decimal_text(n);
    let len = digits.as_str().unicode_len();
    let mut r = String::new();
    if len < width {
        let zero = "0";
        proof {
            reveal_strlit("0");
        }
        push_repeated(&mut r, zero, width - len);
    }
    r.append(digits.as_str());
    assert(r@ =~= zero_padded(n as nat, width as nat));
    r
}

/// `s` left-justified in a field of `width` characters.
pub fn left_justified(s: &str, width: usize) -> (r: String)
    ensures
        r@ == pad_right(s@, width as nat),
{
    let mut r = String::from_str(s);
    let n = s.unicode_len();
    if n < width {
        push_spaces(&mut r, width - n);
    }
    r
}

/// `s` right-justified in a field of `width` characters.
pub fn right_justified(s: &str, width: usize) -> (r: String)
    ensures
        r@ == pad_left(s@, width as nat),
{
    let n = s.unicode_len();
    let mut r = String::new();
    if n < width {
        push_spaces(&mut r, width - n);
    }
    r.append(s);
    assert(r@ =~= pad_left(s@, width as nat));
    r
}

} // verus!
