//! Texts the toolbar and the empty image area show, chosen from the state.

use crate::state::{StateView, ViewerState};
use vstd::prelude::*;

verus! {

/// The character of a decimal digit.
pub open spec fn digit(d: int) -> char
    recommends
        0 <= d < 10,
{
    if d == 0 {
        '0'
    } else if d == 1 {
        '1'
    } else if d == 2 {
        '2'
    } else if d == 3 {
        '3'
    } else if d == 4 {
        '4'
    } else if d == 5 {
        '5'
    } else if d == 6 {
        '6'
    } else if d == 7 {
        '7'
    } else if d == 8 {
        '8'
    } else {
        '9'
    }
}

/// The decimal numeral of `n`, without leading zeros.
pub open spec fn decimal(n: nat) -> Seq<char>
    decreases n,
{
    if n < 10 {
        seq![digit(n as int)]
    } else {
        decimal(n / 10).push(digit((n % 10) as int))
    }
}

/// The number a digit character stands for.
pub open spec fn digit_value(c: char) -> nat {
    if c == '1' {
        1
    } else if c == '2' {
        2
    } else if c == '3' {
        3
    } else if c == '4' {
        4
    } else if c == '5' {
        5
    } else if c == '6' {
        6
    } else if c == '7' {
        7
    } else if c == '8' {
        8
    } else if c == '9' {
        9
    } else {
        0
    }
}

/// The number a sequence of decimal digits reads as.
pub open spec fn numeral_value(s: Seq<char>) -> nat
    decreases s.len(),
{
    if s.len() == 0 {
        0
    } else {
        10 * numeral_value(s.drop_last()) + digit_value(s.last())
    }
}

/// A numeral reads back as the number it was written for, and starts with a zero only when
/// it is the single digit zero.
pub proof fn lemma_decimal_reads_back(n: nat)
    ensures
        numeral_value(decimal(n)) == n,
        decimal(n).len() >= 1,
        decimal(n)[0] == '0' ==> n == 0,
    decreases n,
{
    if n < 10 {
        let s = decimal(n);
        assert(s.drop_last() == Seq::<char>::empty());
        assert(numeral_value(s.drop_last()) == 0);
    } else {
        lemma_decimal_reads_back(n / 10);
        let s = decimal(n);
        assert(s.drop_last() == decimal(n / 10));
        assert(s.last() == digit((n % 10) as int));
        assert(s[0] == decimal(n / 10)[0]);
    }
}

/// The text of a pixel size: width, the letter x, height.
pub open spec fn size_text(width: u32, height: u32) -> Seq<char> {
    decimal(width as nat) + seq!['x'] + decimal(height as nat)
}

/// The empty image area's invitation.
pub open spec fn placeholder() -> Seq<char> {
    "Drop an image here"@
}

impl StateView {
    /// The pin button names what pressing it will do.
    pub open spec fn pin_label(self) -> Seq<char> {
        if self.always_on_top {
            "Unpin"@
        } else {
            "Pin"@
        }
    }

    /// The grid button names the grid's present setting.
    pub open spec fn grid_label(self) -> Seq<char> {
        if self.show_grid {
            "Grid On"@
        } else {
            "Grid Off"@
        }
    }

    /// The size label, shown once a size has been probed.
    pub open spec fn size_label(self) -> Option<Seq<char>> {
        match self.image_size {
            Some((width, height)) => Some(size_text(width, height)),
            None => None,
        }
    }
}

/// One decimal digit as text.
fn digit_text(d: u32) -> (s: &'static str)
    requires
        d < 10,
    ensures
        s@ == seq![digit(d as int)],
{
    proof {
        reveal_strlit("0");
        reveal_strlit("1");
        reveal_strlit("2");
        reveal_strlit("3");
        reveal_strlit("4");
        reveal_strlit("5");
        reveal_strlit("6");
        reveal_strlit("7");
        reveal_strlit("8");
        reveal_strlit("9");
    }
    let s = if d == 0 {
        "0"
    } else if d == 1 {
        "1"
    } else if d == 2 {
        "2"
    } else if d == 3 {
        "3"
    } else if d == 4 {
        "4"
    } else if d == 5 {
        "5"
    } else if d == 6 {
        "6"
    } else if d == 7 {
        "7"
    } else if d == 8 {
        "8"
    } else {
        "9"
    };
    assert(s@ =~= seq![digit(d as int)]);
    s
}

/// Appends the decimal numeral of `n` to `out`.
pub fn push_decimal(out: &mut String, n: u32)
    ensures
        final(out)@ == old(out)@ + decimal(n as nat),
    decreases n,
{
    if n >= 10 {
        push_decimal(out, n / 10);
    }
    out.append(digit_text(n % 10));
    assert(final(out)@ =~= old(out)@ + decimal(n as nat));
}

/// Writes a pixel size as text.
pub fn format_size(width: u32, height: u32) -> (text: String)
    ensures
        text@ == size_text(width, height),
{
    proof {
        reveal_strlit("x");
    }
    let mut text = String::new();
    push_decimal(&mut text, width);
    text.append("x");
    push_decimal(&mut text, height);
    assert(text@ =~= size_text(width, height));
    text
}

/// The text shown where the image would be while none is loaded.
pub fn placeholder_text() -> (text: &'static str)
    ensures
        text@ == placeholder(),
{
    "Drop an image here"
}

impl ViewerState {
    /// Text of the pin button.
    pub fn pin_label(&self) -> (text: &'static str)
        ensures
            text@ == self@.pin_label(),
    {
        if self.always_on_top() {
            "Unpin"
        } else {
            "Pin"
        }
    }

    /// Text of the grid button.
    pub fn grid_label(&self) -> (text: &'static str)
        ensures
            text@ == self@.grid_label(),
    {
        if self.show_grid() {
            "Grid On"
        } else {
            "Grid Off"
        }
    }

    /// Text of the size label, if there is a size to show.
    pub fn size_label(&self) -> (text: Option<String>)
        ensures
            text is Some <==> self@.size_label() is Some,
            text matches Some(t) ==> self@.size_label() == Some(t@),
    {
        match self.image_size() {
            Some((width, height)) => Some(format_size(width, height)),
            None => None,
        }
    }
}

} // verus!
