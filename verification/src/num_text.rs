use vstd::prelude::*;

verus! {

/// The character for one decimal digit.
pub open spec fn digit_char(d: nat) -> char {
    if d == 0 {
        '0'
    } else if d == 1 {
        '1'
    } else if d == 2 {
        '2'
    } else if d == 3 {
        '3'
    } else if d == 4 {
        '4'
    } else if d == 5 {
        '5'
    } else if d == 6 {
        '6'
    } else if d == 7 {
        '7'
    } else if d == 8 {
        '8'
    } else {
        '9'
    }
}

/// The numeric value of a decimal digit character, or 10 for any other char.
pub open spec fn digit_val(c: char) -> nat {
    if c == '0' {
        0
    } else if c == '1' {
        1
    } else if c == '2' {
        2
    } else if c == '3' {
        3
    } else if c == '4' {
        4
    } else if c == '5' {
        5
    } else if c == '6' {
        6
    } else if c == '7' {
        7
    } else if c == '8' {
        8
    } else if c == '9' {
        9
    } else {
        10
    }
}

pub open spec fn is_digit(c: char) -> bool {
    digit_val(c) < 10
}

/// Every character of `s` is a decimal digit and there is at least one.
pub open spec fn is_dec_digits(s: Seq<char>) -> bool {
    s.len() > 0 && forall|i: int| 0 <= i < s.len() ==> is_digit(#[trigger] s[i])
}

/// The canonical decimal rendering of a natural number.
pub open spec fn dec_str(n: nat) -> Seq<char>
    decreases n,
{
    if n < 10 {
        seq![digit_char(n)]
    } else {
        dec_str(n / 10) + seq![digit_char(n % 10)]
    }
}

/// The value of a digit string, read left to right.
pub open spec fn dec_val(s: Seq<char>) -> nat
    decreases s.len(),
{
    if s.len() == 0 {
        0
    } else {
        dec_val(s.drop_last()) * 10 + digit_val(s.last())
    }
}

/// A longer digit prefix never has a smaller value.
proof fn lemma_dec_val_prefix_le(s: Seq<char>, i: int, j: int)
    requires
        0 <= i <= j <= s.len(),
    ensures
        dec_val(s.subrange(0, i)) <= dec_val(s.subrange(0, j)),
    decreases j - i,
{
    if i < j {
        lemma_dec_val_prefix_le(s, i, j - 1);
        let p = s.subrange(0, j);
        assert(p.drop_last() =~= s.subrange(0, j - 1));
        assert(dec_val(s.subrange(0, j - 1)) * 10 >= dec_val(s.subrange(0, j - 1)));
    }
}

/// One decimal digit as a borrowed one-character string.
fn digit_str(d: u32) -> (r: &'static str)
    requires
        d < 10,
    ensures
        r@ == seq![digit_char(d as nat)],
{
    proof {
        reveal_strlit("0");
        reveal_strlit("1");
        reveal_strlit("2");
        reveal_strlit("3");
        reveal_strlit("4");
        reveal_strlit("5");
        reveal_strlit("6");
        reveal_strlit("7");
        reveal_strlit("8");
        reveal_strlit("9");
    }
    let r = if d == 0 {
        "0"
    } else if d == 1 {
        "1"
    } else if d == 2 {
        "2"
    } else if d == 3 {
        "3"
    } else if d == 4 {
        "4"
    } else if d == 5 {
        "5"
    } else if d == 6 {
        "6"
    } else if d == 7 {
        "7"
    } else if d == 8 {
        "8"
    } else {
        "9"
    };
    proof {
        assert(r@ =~= seq![digit_char(d as nat)]);
    }
    r
}

/// Renders a number as its canonical decimal text.
pub fn u32_to_string(n: u32) -> (r: String)
    ensures
        r@ == dec_str(n as nat),
    decreases n,
{
    if n < 10 {
        String::from_str(digit_str(n))
    } else {
        let mut s = u32_to_string(n / 10);
        s.append(digit_str(n % 10));
        s
    }
}

/// Reads a decimal digit string as a number. Returns `None` where the text
/// is empty, holds a non-digit, or names a value above `u32::MAX`.
pub fn parse_u32_digits(s: &str) -> (r: Option<u32>)
    ensures
        r is Some <==> is_dec_digits(s@) && dec_val(s@) <= u32::MAX,
        r matches Some(v) ==> v == dec_val(s@),
{
    let len = s.unicode_len();
    if len == 0 {
        return None;
    }
    let mut acc: u64 = 0;
    let mut i: usize = 0;
    while i < len
        invariant
            0 < len == s@.len(),
            i <= len,
            acc == dec_val(s@.subrange(0, i as int)),
            acc <= u32::MAX,
            forall|k: int| 0 <= k < i ==> is_digit(#[trigger] s@[k]),
        decreases len - i,
    {
        let c = s.get_char(i);
        let d: u64 = if c == '0' {
            0
        } else if c == '1' {
            1
        } else if c == '2' {
            2
        } else if c == '3' {
            3
        } else if c == '4' {
            4
        } else if c == '5' {
            5
        } else if c == '6' {
            6
        } else if c == '7' {
            7
        } else if c == '8' {
            8
        } else if c == '9' {
            9
        } else {
            return None;
        };
        proof {
            assert(d == digit_val(c));
            assert(s@.subrange(0, i as int + 1).drop_last() =~= s@.subrange(0, i as int));
            assert(s@.subrange(0, i as int + 1).last() == s@[i as int]);
        }
        let next: u64 = acc * 10 + d;
        if next > 0xffff_ffff {
            proof {
                lemma_dec_val_prefix_le(s@, i as int + 1, s@.len() as int);
                assert(s@.subrange(0, s@.len() as int) =~= s@);
            }
            return None;
        }
        acc = next;
        i = i + 1;
    }
    proof {
        assert(s@.subrange(0, i as int) =~= s@);
    }
    Some(acc as u32)
}

/// The first position at or after `i` that does not hold a decimal digit.
pub open spec fn digits_end(s: Seq<char>, i: int) -> int
    decreases s.len() - i,
{
    if i < 0 || i >= s.len() || !is_digit(s[i]) {
        i
    } else {
        digits_end(s, i + 1)
    }
}

/// End of the integer part starting at `start`: one `0`, or a run of
/// digits; `start` itself where no digit stands there.
pub open spec fn int_part_end(s: Seq<char>, start: int) -> int {
    if start < s.len() && s[start] == '0' {
        start + 1
    } else {
        digits_end(s, start)
    }
}

/// End of the optional fraction at `start`: past the `.` and its digits, or
/// `start` where no `.` stands there, or -1 where a `.` has no digit.
pub open spec fn frac_end(s: Seq<char>, start: int) -> int {
    if start < 0 {
        -1
    } else if start < s.len() && s[start] == '.' {
        if digits_end(s, start + 1) > start + 1 {
            digits_end(s, start + 1)
        } else {
            -1
        }
    } else {
        start
    }
}

/// End of the optional exponent at `start`: past the `e`/`E`, an optional
/// sign and the digits, or `start` where no exponent stands there, or -1
/// where one is malformed.
pub open spec fn exp_end(s: Seq<char>, start: int) -> int {
    if start < 0 {
        -1
    } else if start < s.len() && (s[start] == 'e' || s[start] == 'E') {
        let d0: int = if start + 1 < s.len() && (s[start + 1] == '+' || s[start + 1] == '-') {
            start + 2
        } else {
            start + 1
        };
        if digits_end(s, d0) > d0 {
            digits_end(s, d0)
        } else {
            -1
        }
    } else {
        start
    }
}

/// The JSON number grammar: an optional minus sign, an integer part (one
/// `0`, or digits without a leading zero), an optional fraction, an
/// optional exponent, and nothing after them.
pub open spec fn is_json_number(s: Seq<char>) -> bool {
    let i0: int = if s.len() > 0 && s[0] == '-' {
        1
    } else {
        0
    };
    let i1 = int_part_end(s, i0);
    let i3 = exp_end(s, frac_end(s, i1));
    i1 > i0 && i3 == s.len()
}

/// Whether a character is a decimal digit.
fn is_digit_exec(c: char) -> (b: bool)
    ensures
        b == is_digit(c),
{
    c == '0' || c == '1' || c == '2' || c == '3' || c == '4' || c == '5' || c == '6' || c == '7'
        || c == '8' || c == '9'
}

/// Scans past the digits from `start` on.
fn scan_digits(s: &str, start: usize, len: usize) -> (r: usize)
    requires
        len == s@.len(),
        start <= len,
    ensures
        r == digits_end(s@, start as int),
        start <= r <= len,
{
    let mut j = start;
    while j < len
        invariant
            start <= j <= len,
            len == s@.len(),
            digits_end(s@, start as int) == digits_end(s@, j as int),
        decreases len - j,
    {
        let c = s.get_char(j);
        if !is_digit_exec(c) {
            return j;
        }
        j = j + 1;
    }
    j
}

/// Checks a text against the JSON number grammar.
pub fn check_json_number(s: &str) -> (b: bool)
    ensures
        b == is_json_number(s@),
{
    let len = s.unicode_len();
    let i0: usize = if len > 0 && s.get_char(0) == '-' {
        1
    } else {
        0
    };
    let i1: usize = if i0 < len && s.get_char(i0) == '0' {
        i0 + 1
    } else {
        scan_digits(s, i0, len)
    };
    if i1 == i0 {
        return false;
    }
    let i2: usize = if i1 < len && s.get_char(i1) == '.' {
        let e = scan_digits(s, i1 + 1, len);
        if e == i1 + 1 {
            return false;
        }
        e
    } else {
        i1
    };
    let mut valid = true;
    let i3: usize = if i2 < len && (s.get_char(i2) == 'e' || s.get_char(i2) == 'E') {
        let d0: usize = if i2 + 1 < len && (s.get_char(i2 + 1) == '+' || s.get_char(i2 + 1) == '-') {
            i2 + 2
        } else {
            i2 + 1
        };
        let e = scan_digits(s, d0, len);
        if e == d0 {
            valid = false;
            i2
        } else {
            e
        }
    } else {
        i2
    };
    valid && i3 == len
}

} // verus!
