//! The text of a register: white space at its ends and decimal integers.
use vstd::prelude::*;
use vstd::string::*;

verus! {

/// The greatest magnitude that the parser follows digit by digit.
const MAGNITUDE_CAP: u64 = 4294967295;

/// Whether a character is white space, as Unicode defines it.
pub open spec fn is_space(c: char) -> bool {
    let n = c as u32;
    ||| 0x9 <= n <= 0xd
    ||| n == 0x20
    ||| n == 0x85
    ||| n == 0xa0
    ||| n == 0x1680
    ||| 0x2000 <= n <= 0x200a
    ||| n == 0x2028
    ||| n == 0x2029
    ||| n == 0x202f
    ||| n == 0x205f
    ||| n == 0x3000
}

/// A text without the white space at its start.
pub open spec fn trim_start(t: Seq<char>) -> Seq<char>
    decreases t.len(),
{
    if t.len() > 0 && is_space(t.first()) {
        trim_start(t.drop_first())
    } else {
        t
    }
}

/// A text without the white space at its end.
pub open spec fn trim_end(t: Seq<char>) -> Seq<char>
    decreases t.len(),
{
    if t.len() > 0 && is_space(t.last()) {
        trim_end(t.drop_last())
    } else {
        t
    }
}

/// A text without the white space at either end.
pub open spec fn trimmed(t: Seq<char>) -> Seq<char> {
    trim_end(trim_start(t))
}

/// Whether a character is a decimal digit.
pub open spec fn is_digit(c: char) -> bool {
    '0' <= c <= '9'
}

/// Whether a text holds decimal digits only.
pub open spec fn all_digits(s: Seq<char>) -> bool {
    forall|i: int| 0 <= i < s.len() ==> is_digit(#[trigger] s[i])
}

/// The number that a text of decimal digits writes.
pub open spec fn decimal(s: Seq<char>) -> nat
    decreases s.len(),
{
    if s.len() == 0 {
        0
    } else {
        (decimal(s.drop_last()) * 10 + (s.last() as u32 - '0' as u32)) as nat
    }
}

/// The integer that a text writes: a sign, which may be left out and is `+`
/// or, where `signed`, `-`; then one decimal digit or more, and nothing else.
pub open spec fn integer_of_text(s: Seq<char>, signed: bool) -> Option<int> {
    let sign = s.len() > 0 && (s[0] == '+' || (signed && s[0] == '-'));
    let body = if sign {
        s.drop_first()
    } else {
        s
    };
    if body.len() > 0 && all_digits(body) {
        Some(
            if sign && s[0] == '-' {
                -(decimal(body) as int)
            } else {
                decimal(body) as int
            },
        )
    } else {
        None
    }
}

/// The `u32` that a text writes, if it writes one.
pub open spec fn u32_of_text(s: Seq<char>) -> Option<u32> {
    match integer_of_text(s, false) {
        Some(v) => if v <= u32::MAX {
            Some(v as u32)
        } else {
            None
        },
        None => None,
    }
}

/// The `i32` that a text writes, if it writes one.
pub open spec fn i32_of_text(s: Seq<char>) -> Option<i32> {
    match integer_of_text(s, true) {
        Some(v) => if i32::MIN <= v <= i32::MAX {
            Some(v as i32)
        } else {
            None
        },
        None => None,
    }
}

/// The magnitude that the parser holds after reading digits that write
/// `value`: the value itself up to the cap, and something above the cap beyond.
spec fn follows(acc: u64, value: nat) -> bool {
    if acc <= MAGNITUDE_CAP {
        acc == value
    } else {
        value > MAGNITUDE_CAP
    }
}

/// Whether a character is white space.
pub fn is_whitespace(c: char) -> (r: bool)
    ensures
        r == is_space(c),
{
    let n: u32 = c as u32;
    (0x9 <= n && n <= 0xd) || n == 0x20 || n == 0x85 || n == 0xa0 || n == 0x1680 || (0x2000 <= n
        && n <= 0x200a) || n == 0x2028 || n == 0x2029 || n == 0x202f || n == 0x205f || n == 0x3000
}

/// The characters of a text, in order.
pub fn chars_of(text: &str) -> (v: Vec<char>)
    ensures
        v@ == text@,
{
    let mut v: Vec<char> = Vec::new();
    for c in it: text.chars()
        invariant
            it.seq() == text@,
            v@ == it.seq().take(it.index()),
    {
        v.push(c);
    }
    v
}

/// Where a text begins and ends once the white space at its ends is left out.
pub fn trim_bounds(v: &Vec<char>) -> (r: (usize, usize))
    ensures
        r.0 <= r.1 <= v.len(),
        v@.subrange(r.0 as int, r.1 as int) == trimmed(v@),
{
    let n = v.len();
    let mut a: usize = 0;
    assert(v@.subrange(0, n as int) =~= v@);
    while a < n && is_whitespace(v[a])
        invariant
            n == v.len(),
            a <= n,
            trim_start(v@) == trim_start(v@.subrange(a as int, n as int)),
        decreases n - a,
    {
        assert(v@.subrange(a as int, n as int).drop_first() =~= v@.subrange(a + 1, n as int));
        a += 1;
    }
    let mut b: usize = n;
    while b > a && is_whitespace(v[b - 1])
        invariant
            n == v.len(),
            a <= b <= n,
            trim_start(v@) == v@.subrange(a as int, n as int),
            trimmed(v@) == trim_end(v@.subrange(a as int, b as int)),
        decreases b,
    {
        assert(v@.subrange(a as int, b as int).drop_last() =~= v@.subrange(a as int, b - 1));
        b -= 1;
    }
    (a, b)
}

/// Whether the characters of `v` from `from` to `to` spell `word`.
pub fn spells(v: &Vec<char>, from: usize, to: usize, word: &str) -> (r: bool)
    requires
        from <= to <= v.len(),
    ensures
        r == (v@.subrange(from as int, to as int) == word@),
{
    let n = word.unicode_len();
    if to - from != n {
        return false;
    }
    let mut i: usize = 0;
    while i < n
        invariant
            from <= to <= v.len(),
            n == to - from,
            n == word@.len(),
            i <= n,
            forall|k: int| 0 <= k < i ==> v@[from + k] == word@[k],
        decreases n - i,
    {
        if v[from + i] != word.get_char(i) {
            assert(v@.subrange(from as int, to as int)[i as int] != word@[i as int]);
            return false;
        }
        i += 1;
    }
    assert(v@.subrange(from as int, to as int) =~= word@);
    true
}

/// Reads the digits of `v` from `from` to `to`: the magnitude they write,
/// followed up to the cap, or nothing if one of them is no digit.
fn read_digits(v: &Vec<char>, from: usize, to: usize) -> (r: Option<u64>)
    requires
        from <= to <= v.len(),
    ensures
        r is Some <==> all_digits(v@.subrange(from as int, to as int)),
        r is Some ==> follows(r.unwrap(), decimal(v@.subrange(from as int, to as int))),
{
    let mut acc: u64 = 0;
    let mut k: usize = from;
    while k < to
        invariant
            from <= k <= to <= v.len(),
            all_digits(v@.subrange(from as int, k as int)),
            follows(acc, decimal(v@.subrange(from as int, k as int))),
            acc <= MAGNITUDE_CAP * 10 + 9,
        decreases to - k,
    {
        let c = v[k];
        if !('0' <= c && c <= '9') {
            assert(v@.subrange(from as int, to as int)[k - from] == c);
            return None;
        }
        assert(v@.subrange(from as int, k + 1).drop_last() =~= v@.subrange(from as int, k as int));
        if acc <= MAGNITUDE_CAP {
            acc = acc * 10 + (c as u32 - '0' as u32) as u64;
        }
        k += 1;
    }
    Some(acc)
}

/// Reads an integer from `v` between `from` and `to`: whether it is
/// negative, and its magnitude, followed up to the cap.
fn read_integer(v: &Vec<char>, from: usize, to: usize, signed: bool) -> (r: Option<(bool, u64)>)
    requires
        from <= to <= v.len(),
    ensures
        r is Some <==> integer_of_text(v@.subrange(from as int, to as int), signed) is Some,
        r is Some ==> {
            let value = integer_of_text(v@.subrange(from as int, to as int), signed).unwrap();
            let (negative, acc) = r.unwrap();
            &&& negative ==> value <= 0
            &&& !negative ==> value >= 0
            &&& follows(acc, (if negative { -value } else { value }) as nat)
        },
{
    let ghost s = v@.subrange(from as int, to as int);
    let sign = from < to && (v[from] == '+' || (signed && v[from] == '-'));
    let start = if sign {
        from + 1
    } else {
        from
    };
    assert(sign ==> s.drop_first() =~= v@.subrange(start as int, to as int));
    if start == to {
        return None;
    }
    match read_digits(v, start, to) {
        Some(acc) => Some((sign && v[from] == '-', acc)),
        None => None,
    }
}

/// Reads a `u32` from a text, whatever white space stands at its ends.
pub fn parse_u32(text: &str) -> (r: Option<u32>)
    ensures
        r == u32_of_text(trimmed(text@)),
{
    let v = chars_of(text);
    let (a, b) = trim_bounds(&v);
    match read_integer(&v, a, b, false) {
        Some((_, acc)) => if acc <= MAGNITUDE_CAP {
            Some(acc as u32)
        } else {
            None
        },
        None => None,
    }
}

/// Reads an `i32` from a text, whatever white space stands at its ends.
pub fn parse_i32(text: &str) -> (r: Option<i32>)
    ensures
        r == i32_of_text(trimmed(text@)),
{
    let v = chars_of(text);
    let (a, b) = trim_bounds(&v);
    match read_integer(&v, a, b, true) {
        Some((negative, acc)) => if negative {
            if acc <= 2147483648 {
                Some((-(acc as i64)) as i32)
            } else {
                None
            }
        } else {
            if acc <= 2147483647 {
                Some(acc as i32)
            } else {
                None
            }
        },
        None => None,
    }
}

} // verus!
