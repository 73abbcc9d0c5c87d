//! Small functions on text: comparing, writing numbers in decimal, and
//! reading a yes out of a line that a user typed.

use vstd::prelude::*;
use vstd::string::*;

verus! {

/// Whether two strings hold the same characters.
pub fn str_equal(a: &str, b: &str) -> (r: bool)
    ensures
        r == (a@ == b@),
{
    let left: String = a.to_owned();
    let right: String = b.to_owned();
    left == right
}

/// `a`, then `x`, then `b`.
pub fn fill(a: &str, x: &str, b: &str) -> (r: String)
    ensures
        r@ == a@ + x@ + b@,
{
    let mut r = String::from_str(a);
    r.append(x);
    r.append(b);
    r
}

/// `a`, `x`, `b`, `y`, `c`, one after the other.
pub fn fill2(a: &str, x: &str, b: &str, y: &str, c: &str) -> (r: String)
    ensures
        r@ == a@ + x@ + b@ + y@ + c@,
{
    let mut r = fill(a, x, b);
    r.append(y);
    r.append(c);
    r
}

/// `a`, `x`, `b`, `y`, `c`, `z`, `d`, one after the other.
pub fn fill3(a: &str, x: &str, b: &str, y: &str, c: &str, z: &str, d: &str) -> (r: String)
    ensures
        r@ == a@ + x@ + b@ + y@ + c@ + z@ + d@,
{
    let mut r = fill2(a, x, b, y, c);
    r.append(z);
    r.append(d);
    r
}

/// The character that stands for a digit.
pub open spec fn digit_char(d: nat) -> char {
    if d == 0 {
        '0'
    } else if d == 1 {
        '1'
    } else if d == 2 {
        '2'
    } else if d == 3 {
        '3'
    } else if d == 4 {
        '4'
    } else if d == 5 {
        '5'
    } else if d == 6 {
        '6'
    } else if d == 7 {
        '7'
    } else if d == 8 {
        '8'
    } else {
        '9'
    }
}

/// A number in decimal, without leading zeros.
pub open spec fn decimal_of(n: nat) -> Seq<char>
    decreases n,
{
    if n < 10 {
        seq![digit_char(n)]
    } else {
        decimal_of(n / 10).push(digit_char(n % 10))
    }
}

/// A number in decimal, with a minus sign in front where it is negative.
pub open spec fn signed_decimal_of(n: int) -> Seq<char> {
    if n < 0 {
        seq!['-'] + decimal_of((-n) as nat)
    } else {
        decimal_of(n as nat)
    }
}

fn digit(d: u64) -> (r: &'static str)
    requires
        d < 10,
    ensures
        r@ == seq![digit_char(d as nat)],
{
    proof {
        reveal_strlit("0");
        reveal_strlit("1");
        reveal_strlit("2");
        reveal_strlit("3");
        reveal_strlit("4");
        reveal_strlit("5");
        reveal_strlit("6");
        reveal_strlit("7");
        reveal_strlit("8");
        reveal_strlit("9");
    }
    let r = if d == 0 {
        "0"
    } else if d == 1 {
        "1"
    } else if d == 2 {
        "2"
    } else if d == 3 {
        "3"
    } else if d == 4 {
        "4"
    } else if d == 5 {
        "5"
    } else if d == 6 {
        "6"
    } else if d == 7 {
        "7"
    } else if d == 8 {
        "8"
    } else {
        "9"
    };
    assert(r@ =~= seq![digit_char(d as nat)]);
    r
}

/// Writes a number in decimal.
pub fn decimal(n: u64) -> (r: String)
    ensures
        r@ == decimal_of(n as nat),
    decreases n,
{
    if n < 10 {
        String::from_str(digit(n))
    } else {
        let mut r = decimal(n / 10);
        r.append(digit(n % 10));
        assert(r@ =~= decimal_of(n as nat));
        r
    }
}

/// Writes a number in decimal, with its sign where it is negative.
pub fn signed_decimal(n: i64) -> (r: String)
    ensures
        r@ == signed_decimal_of(n as int),
{
    if n < 0 {
        let magnitude: u64 = ((-(n + 1)) as u64) + 1;
        proof {
            reveal_strlit("-");
        }
        let mut r = String::from_str("-");
        let digits = decimal(magnitude);
        r.append(digits.as_str());
        assert(r@ =~= signed_decimal_of(n as int));
        r
    } else {
        decimal(n as u64)
    }
}

/// The characters that count as blank at the ends of a line.
pub open spec fn is_blank(c: char) -> bool {
    let u = c as u32;
    ||| 0x09 <= u <= 0x0d
    ||| u == 0x20
    ||| u == 0x85
    ||| u == 0xa0
    ||| u == 0x1680
    ||| 0x2000 <= u <= 0x200a
    ||| u == 0x2028
    ||| u == 0x2029
    ||| u == 0x202f
    ||| u == 0x205f
    ||| u == 0x3000
}

/// The line says yes: it is the letter y, small or capital, with nothing
/// but blanks before and after it.
pub open spec fn says_yes(line: Seq<char>) -> bool {
    exists|i: int| is_yes_at(line, i)
}

pub open spec fn is_yes_at(line: Seq<char>, i: int) -> bool {
    &&& 0 <= i < line.len()
    &&& (line[i] == 'y' || line[i] == 'Y')
    &&& forall|j: int| 0 <= j < line.len() && j != i ==> is_blank(line[j])
}

pub fn blank(c: char) -> (r: bool)
    ensures
        r == is_blank(c),
{
    let u: u32 = c as u32;
    (0x09 <= u && u <= 0x0d) || u == 0x20 || u == 0x85 || u == 0xa0 || u == 0x1680 || (0x2000 <= u && u
        <= 0x200a) || u == 0x2028 || u == 0x2029 || u == 0x202f || u == 0x205f || u == 0x3000
}

/// Whether a line that the user typed says yes.
pub fn is_yes(line: &str) -> (r: bool)
    ensures
        r == says_yes(line@),
{
    let n: usize = line.unicode_len();
    let mut found: Option<usize> = None;
    let mut i: usize = 0;
    while i < n
        invariant
            i <= n,
            n == line@.len(),
            found matches Some(p) ==> p < i && (line@[p as int] == 'y' || line@[p as int] == 'Y'),
            forall|j: int| 0 <= j < i && Some(j as usize) != found ==> is_blank(line@[j]),
        decreases n - i,
    {
        let c = line.get_char(i);
        if !blank(c) {
            if found.is_none() && (c == 'y' || c == 'Y') {
                found = Some(i);
            } else {
                proof {
                    assert forall|p: int| !is_yes_at(line@, p) by {
                        if is_yes_at(line@, p) {
                            if p == i {
                                let q = found->0 as int;
                                assert(is_blank(line@[q]));
                            } else {
                                assert(is_blank(line@[i as int]));
                            }
                        }
                    }
                }
                return false;
            }
        }
        i += 1;
    }
    match found {
        Some(p) => {
            assert(is_yes_at(line@, p as int));
            true
        },
        None => {
            assert forall|p: int| !is_yes_at(line@, p) by {
                if is_yes_at(line@, p) {
                    assert(is_blank(line@[p]));
                }
            }
            false
        },
    }
}

} // verus!
