//! What a write puts into which register.
use vstd::prelude::*;
use vstd::string::*;
use crate::executor::Write;
use crate::readings::Register;
use crate::text::{
    all_digits, decimal, i32_of_text, integer_of_text, is_digit, is_space, trim_end, trim_start,
    trimmed, u32_of_text,
};

verus! {

/// The character that writes a digit.
pub open spec fn digit_char(d: nat) -> char {
    if d == 0 {
        '0'
    } else if d == 1 {
        '1'
    } else if d == 2 {
        '2'
    } else if d == 3 {
        '3'
    } else if d == 4 {
        '4'
    } else if d == 5 {
        '5'
    } else if d == 6 {
        '6'
    } else if d == 7 {
        '7'
    } else if d == 8 {
        '8'
    } else {
        '9'
    }
}

/// A number written in decimal digits, without a sign and without zeros in
/// front.
pub open spec fn decimal_text(n: nat) -> Seq<char>
    decreases n,
{
    if n < 10 {
        seq![digit_char(n)]
    } else {
        decimal_text(n / 10).push(digit_char(n % 10))
    }
}

/// The text that a write puts into its register: `1` or `0` for the
/// converter, and a limit in decimal digits with a line feed behind it.
pub open spec fn payload(write: Write) -> Seq<char> {
    match write {
        Write::Online(on) => if on {
            seq!['1']
        } else {
            seq!['0']
        },
        Write::InputLimit(limit) => decimal_text(limit as nat).push('\n'),
        Write::KeyboardLimit(limit) => decimal_text(limit as nat).push('\n'),
    }
}

/// The register that a write goes to.
pub open spec fn target(write: Write) -> Register {
    match write {
        Write::Online(_) => Register::KbEnabled,
        Write::InputLimit(_) => Register::MbLimit,
        Write::KeyboardLimit(_) => Register::KbLimit,
    }
}

/// A number written in decimal digits is digits only, and they write it.
pub proof fn lemma_decimal_text(n: nat)
    ensures
        decimal_text(n).len() > 0,
        all_digits(decimal_text(n)),
        decimal(decimal_text(n)) == n,
    decreases n,
{
    if n < 10 {
        assert(decimal_text(n).drop_last() =~= Seq::<char>::empty());
        assert(decimal(Seq::<char>::empty()) == 0);
    } else {
        lemma_decimal_text(n / 10);
        assert(decimal_text(n).drop_last() =~= decimal_text(n / 10));
    }
}

/// A limit that was written reads back as itself, line feed and all.
pub proof fn lemma_limit_reads_back(limit: u32)
    ensures
        u32_of_text(trimmed(decimal_text(limit as nat).push('\n'))) == Some(limit),
{
    let digits = decimal_text(limit as nat);
    let line = digits.push('\n');
    lemma_decimal_text(limit as nat);
    assert(is_digit(digits[0]) && is_digit(digits[digits.len() - 1]));
    assert(line.first() == digits[0]);
    assert(trim_start(line) == line);
    assert(line.drop_last() =~= digits);
    assert(trim_end(line) == trim_end(digits));
    assert(trim_end(digits) == digits);
}

/// The converter's state that was written reads back as 1 for on and 0 for
/// off.
pub proof fn lemma_online_reads_back(on: bool)
    ensures
        i32_of_text(trimmed(payload(Write::Online(on)))) == Some(
            if on {
                1i32
            } else {
                0i32
            },
        ),
{
    let t = payload(Write::Online(on));
    assert(trimmed(t) == t);
    assert(t.drop_last() =~= Seq::<char>::empty());
    assert(decimal(Seq::<char>::empty()) == 0);
    assert(decimal(t) == if on { 1nat } else { 0nat });
    assert(integer_of_text(t, true) == Some(if on { 1int } else { 0int }));
}

/// The text that writes a digit.
fn digit_text(d: u32) -> (r: &'static str)
    requires
        d < 10,
    ensures
        r@ == seq![digit_char(d as nat)],
{
    proof {
        reveal_strlit("0");
        reveal_strlit("1");
        reveal_strlit("2");
        reveal_strlit("3");
        reveal_strlit("4");
        reveal_strlit("5");
        reveal_strlit("6");
        reveal_strlit("7");
        reveal_strlit("8");
        reveal_strlit("9");
    }
    let r = match d {
        0 => "0",
        1 => "1",
        2 => "2",
        3 => "3",
        4 => "4",
        5 => "5",
        6 => "6",
        7 => "7",
        8 => "8",
        _ => "9",
    };
    assert(r@ =~= seq![digit_char(d as nat)]);
    r
}

/// Writes a number in decimal digits.
pub fn decimal_string(n: u32) -> (r: String)
    ensures
        r@ == decimal_text(n as nat),
    decreases n,
{
    if n < 10 {
        String::from_str(digit_text(n))
    } else {
        let mut r = decimal_string(n / 10);
        r.append(digit_text(n % 10));
        assert(r@ =~= decimal_text(n as nat));
        r
    }
}

impl Write {
    /// The register that this write goes to.
    pub fn register(&self) -> (r: Register)
        ensures
            r == target(*self),
    {
        match self {
            Write::Online(_) => Register::KbEnabled,
            Write::InputLimit(_) => Register::MbLimit,
            Write::KeyboardLimit(_) => Register::KbLimit,
        }
    }

    /// The text that this write puts into its register.
    pub fn text(&self) -> (r: String)
        ensures
            r@ == payload(*self),
    {
        proof {
            reveal_strlit("0");
            reveal_strlit("1");
            reveal_strlit("\n");
        }
        match self {
            Write::Online(on) => {
                let r = if *on {
                    String::from_str("1")
                } else {
                    String::from_str("0")
                };
                assert(r@ =~= payload(*self));
                r
            },
            Write::InputLimit(limit) => {
                let mut r = decimal_string(*limit);
                r.append("\n");
                assert(r@ =~= payload(*self));
                r
            },
            Write::KeyboardLimit(limit) => {
                let mut r = decimal_string(*limit);
                r.append("\n");
                assert(r@ =~= payload(*self));
                r
            },
        }
    }
}

} // verus!
