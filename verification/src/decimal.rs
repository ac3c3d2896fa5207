//! Decimal text of unsigned integers: how an identity or an order number is
//! written in a token or a form, and how it is read back.

use vstd::prelude::*;
use vstd::string::*;

verus! {

/// The digit that stands for a value below ten.
pub open spec fn digit_char(d: nat) -> char {
    if d == 0 {
        '0'
    } else if d == 1 {
        '1'
    } else if d == 2 {
        '2'
    } else if d == 3 {
        '3'
    } else if d == 4 {
        '4'
    } else if d == 5 {
        '5'
    } else if d == 6 {
        '6'
    } else if d == 7 {
        '7'
    } else if d == 8 {
        '8'
    } else {
        '9'
    }
}

/// The value of a decimal digit, `None` for any other character.
pub open spec fn digit_value(c: char) -> Option<nat> {
    if c == '0' {
        Some(0)
    } else if c == '1' {
        Some(1)
    } else if c == '2' {
        Some(2)
    } else if c == '3' {
        Some(3)
    } else if c == '4' {
        Some(4)
    } else if c == '5' {
        Some(5)
    } else if c == '6' {
        Some(6)
    } else if c == '7' {
        Some(7)
    } else if c == '8' {
        Some(8)
    } else if c == '9' {
        Some(9)
    } else {
        None
    }
}

/// The decimal text of `n`: most significant digit first, no leading zero
/// except for zero itself.
pub open spec fn digits(n: nat) -> Seq<char>
    decreases n,
{
    if n < 10 {
        seq![digit_char(n)]
    } else {
        digits(n / 10).push(digit_char(n % 10))
    }
}

/// The number that a run of digits writes, most significant first; `None`
/// where a character is no digit. The empty run writes zero.
pub open spec fn number(s: Seq<char>) -> Option<nat>
    decreases s.len(),
{
    if s.len() == 0 {
        Some(0)
    } else {
        match (number(s.drop_last()), digit_value(s.last())) {
            (Some(high), Some(low)) => Some(high * 10 + low),
            _ => None,
        }
    }
}

/// What is left of `s` once one leading plus sign is taken off.
pub open spec fn unsigned_part(s: Seq<char>) -> Seq<char> {
    if s.len() > 0 && s[0] == '+' {
        s.skip(1)
    } else {
        s
    }
}

/// The `u64` that `s` writes: an optional plus sign, then at least one digit
/// and nothing else, the value within range.
pub open spec fn spec_parse_u64(s: Seq<char>) -> Option<u64> {
    let body = unsigned_part(s);
    match number(body) {
        Some(v) => if body.len() > 0 && v <= u64::MAX {
            Some(v as u64)
        } else {
            None
        },
        None => None,
    }
}

/// A run of digits never writes less than what a prefix of it writes.
proof fn lemma_number_grows(s: Seq<char>, j: int, k: int)
    requires
        0 <= j <= k <= s.len(),
    ensures
        number(s.take(k)) matches Some(whole) ==> (number(s.take(j)) matches Some(part) && part
            <= whole),
    decreases k - j,
{
    if j < k {
        assert(s.take(k).drop_last() =~= s.take(k - 1));
        lemma_number_grows(s, j, k - 1);
    }
}

/// Reading back the decimal text of a number gives that number.
pub proof fn lemma_number_of_digits(n: nat)
    ensures
        number(digits(n)) == Some(n),
        digits(n).len() > 0,
        digit_value(digits(n)[0]) is Some,
    decreases n,
{
    if n < 10 {
        assert(digits(n).drop_last() =~= Seq::<char>::empty());
        assert(number(digits(n).drop_last()) == Some(0nat));
    } else {
        lemma_number_of_digits(n / 10);
        assert(digits(n).drop_last() =~= digits(n / 10));
        assert(digits(n)[0] == digits(n / 10)[0]);
    }
}

/// Writing a `u64` in decimal and parsing the text gives the number back.
pub proof fn lemma_parse_of_digits(n: u64)
    ensures
        spec_parse_u64(digits(n as nat)) == Some(n),
{
    lemma_number_of_digits(n as nat);
}

/// The value of a decimal digit.
fn digit_of(c: char) -> (d: Option<u64>)
    ensures
        match digit_value(c) {
            Some(v) => d == Some(v as u64),
            None => d is None,
        },
        d matches Some(v) ==> v < 10,
{
    if c == '0' {
        Some(0)
    } else if c == '1' {
        Some(1)
    } else if c == '2' {
        Some(2)
    } else if c == '3' {
        Some(3)
    } else if c == '4' {
        Some(4)
    } else if c == '5' {
        Some(5)
    } else if c == '6' {
        Some(6)
    } else if c == '7' {
        Some(7)
    } else if c == '8' {
        Some(8)
    } else if c == '9' {
        Some(9)
    } else {
        None
    }
}

/// Parses the characters of `text` from position `from` on as a `u64`.
/// Positions count characters; past the end of the text there is nothing to
/// parse.
pub fn parse_u64_from(text: &str, from: usize) -> (r: Option<u64>)
    ensures
        r == if from <= text@.len() {
            spec_parse_u64(text@.skip(from as int))
        } else {
            None
        },
{
    let len: usize = text.unicode_len();
    if from > len {
        return None;
    }
    let ghost tail = text@.skip(from as int);
    let mut at: usize = from;
    if at < len && text.get_char(at) == '+' {
        at = at + 1;
    }
    let start: usize = at;
    let ghost body = unsigned_part(tail);
    assert(body =~= text@.skip(start as int));
    if start == len {
        return None;
    }
    let mut acc: u64 = 0;
    assert(body.take(0) =~= Seq::<char>::empty());
    while at < len
        invariant
            start <= at <= len,
            len == text@.len(),
            body == text@.skip(start as int),
            body == unsigned_part(text@.skip(from as int)),
            number(body.take(at - start)) == Some(acc as nat),
        decreases len - at,
    {
        let c = text.get_char(at);
        let ghost upto = body.take(at - start + 1);
        assert(upto.drop_last() =~= body.take(at - start));
        assert(upto.last() == c);
        match digit_of(c) {
            None => {
                proof {
                    assert(number(upto) is None);
                    lemma_number_grows(body, at - start + 1, body.len() as int);
                    assert(body.take(body.len() as int) =~= body);
                }
                return None;
            },
            Some(d) => {
                if acc > 1844674407370955161 || (acc == 1844674407370955161 && d > 5) {
                    proof {
                        assert(number(upto) == Some((acc * 10 + d) as nat));
                        lemma_number_grows(body, at - start + 1, body.len() as int);
                        assert(body.take(body.len() as int) =~= body);
                    }
                    return None;
                }
                acc = acc * 10 + d;
                at = at + 1;
            },
        }
    }
    assert(body.take(at - start) =~= body);
    Some(acc)
}

/// Parses `text` as a `u64`: an optional plus sign, then digits only.
pub fn parse_u64(text: &str) -> (r: Option<u64>)
    ensures
        r == spec_parse_u64(text@),
{
    assert(text@.skip(0) =~= text@);
    parse_u64_from(text, 0)
}

/// The one-character text of a digit.
fn digit_text(d: u64) -> (t: &'static str)
    requires
        d < 10,
    ensures
        t@ == seq![digit_char(d as nat)],
{
    proof {
        reveal_strlit("0");
        reveal_strlit("1");
        reveal_strlit("2");
        reveal_strlit("3");
        reveal_strlit("4");
        reveal_strlit("5");
        reveal_strlit("6");
        reveal_strlit("7");
        reveal_strlit("8");
        reveal_strlit("9");
    }
    let t = if d == 0 {
        "0"
    } else if d == 1 {
        "1"
    } else if d == 2 {
        "2"
    } else if d == 3 {
        "3"
    } else if d == 4 {
        "4"
    } else if d == 5 {
        "5"
    } else if d == 6 {
        "6"
    } else if d == 7 {
        "7"
    } else if d == 8 {
        "8"
    } else {
        "9"
    };
    assert(t@ =~= seq![digit_char(d as nat)]);
    t
}

/// Writes `n` in decimal.
pub fn render(n: u64) -> (s: String)
    ensures
        s@ == digits(n as nat),
    decreases n,
{
    if n < 10 {
        String::from_str(digit_text(n))
    } else {
        let mut s = render(n / 10);
        s.append(digit_text(n % 10));
        assert(s@ =~= digits(n as nat));
        s
    }
}

} // verus!
