//! Textual rendering of key and label values.
//!
//! The `Tag` convenience type carries the key and the label of a record as
//! plain text, so the value types used for keys and labels must agree on a
//! rendering. `ToText` is that agreement: a specification-level text and an
//! executable renderer proved to produce it.

use vstd::prelude::*;
use vstd::string::StringExecFns;

verus! {

/// The decimal digit character for `d` (meaningful for `d` below ten).
pub open spec fn decimal_digit(d: nat) -> char {
    if d == 0 {
        '0'
    } else if d == 1 {
        '1'
    } else if d == 2 {
        '2'
    } else if d == 3 {
        '3'
    } else if d == 4 {
        '4'
    } else if d == 5 {
        '5'
    } else if d == 6 {
        '6'
    } else if d == 7 {
        '7'
    } else if d == 8 {
        '8'
    } else {
        '9'
    }
}

/// The decimal text of `n`: most significant digit first, no sign and no
/// leading zeros (zero itself renders as a single '0').
pub open spec fn decimal(n: nat) -> Seq<char>
    decreases n,
{
    if n < 10 {
        seq![decimal_digit(n)]
    } else {
        decimal(n / 10) + seq![decimal_digit(n % 10)]
    }
}

/// A value with an agreed textual rendering.
pub trait ToText {
    /// The text this value renders to.
    spec fn text(&self) -> Seq<char>;

    /// Renders this value as text.
    fn to_text(&self) -> (r: String)
        ensures
            r@ == self.text(),
    ;
}

/// The one-character text of the decimal digit `d`.
fn digit_str(d: u64) -> (r: &'static str)
    requires
        d < 10,
    ensures
        r@ == seq![decimal_digit(d as nat)],
{
    let r: &'static str = match d {
        0 => "0",
        1 => "1",
        2 => "2",
        3 => "3",
        4 => "4",
        5 => "5",
        6 => "6",
        7 => "7",
        8 => "8",
        _ => "9",
    };
    proof {
        reveal_strlit("0");
        reveal_strlit("1");
        reveal_strlit("2");
        reveal_strlit("3");
        reveal_strlit("4");
        reveal_strlit("5");
        reveal_strlit("6");
        reveal_strlit("7");
        reveal_strlit("8");
        reveal_strlit("9");
        assert(r@ =~= seq![decimal_digit(d as nat)]);
    }
    r
}

/// Renders `n` in decimal.
pub fn u64_text(n: u64) -> (r: String)
    ensures
        r@ == decimal(n as nat),
    decreases n,
{
    if n < 10 {
        String::from_str(digit_str(n))
    } else {
        proof {
            assert(n / 10 < n) by (nonlinear_arith)
                requires
                    n >= 10,
            ;
        }
        let mut s = u64_text(n / 10);
        s.append(digit_str(n % 10));
        assert(s@ =~= decimal(n as nat));
        s
    }
}

impl ToText for u64 {
    open spec fn text(&self) -> Seq<char> {
        decimal(*self as nat)
    }

    fn to_text(&self) -> (r: String) {
        u64_text(*self)
    }
}

impl ToText for usize {
    open spec fn text(&self) -> Seq<char> {
        decimal(*self as nat)
    }

    fn to_text(&self) -> (r: String) {
        u64_text(*self as u64)
    }
}

impl ToText for i32 {
    open spec fn text(&self) -> Seq<char> {
        if *self < 0 {
            seq!['-'] + decimal((-(*self as int)) as nat)
        } else {
            decimal(*self as nat)
        }
    }

    fn to_text(&self) -> (r: String) {
        let v = *self;
        if v < 0 {
            let m: u64 = (-(v as i64)) as u64;
            let mut s = String::from_str("-");
            let digits = u64_text(m);
            s.append(digits.as_str());
            proof {
                reveal_strlit("-");
                assert(s@ =~= self.text());
            }
            s
        } else {
            u64_text(v as u64)
        }
    }
}

impl ToText for String {
    open spec fn text(&self) -> Seq<char> {
        self@
    }

    fn to_text(&self) -> (r: String) {
        self.clone()
    }
}

} // verus!
