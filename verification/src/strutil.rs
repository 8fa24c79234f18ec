//! Verified helpers on strings and decimal numbers: equality of string
//! slices, rendering of unsigned and signed integers, and the lenient
//! decimal parsers used by the command grammar.

use vstd::prelude::*;

verus! {

use vstd::string::StrSliceExecFns;
use vstd::string::StringExecFns;

/// The character that writes a decimal digit.
pub open spec fn digit_char(d: int) -> char {
    if d == 0 {
        '0'
    } else if d == 1 {
        '1'
    } else if d == 2 {
        '2'
    } else if d == 3 {
        '3'
    } else if d == 4 {
        '4'
    } else if d == 5 {
        '5'
    } else if d == 6 {
        '6'
    } else if d == 7 {
        '7'
    } else if d == 8 {
        '8'
    } else {
        '9'
    }
}

/// The decimal writing of a natural number, most significant digit first.
pub open spec fn dec_rep(n: nat) -> Seq<char>
    decreases n,
{
    if n < 10 {
        seq![digit_char(n as int)]
    } else {
        dec_rep(n / 10).push(digit_char((n % 10) as int))
    }
}

/// The decimal writing of an integer: a minus sign before the magnitude
/// when it is negative.
pub open spec fn int_dec_rep(v: int) -> Seq<char> {
    if v >= 0 {
        dec_rep(v as nat)
    } else {
        seq!['-'] + dec_rep((-v) as nat)
    }
}

pub open spec fn is_digit_char(c: char) -> bool {
    48 <= c as u32 <= 57
}

/// The value of one decimal digit character.
pub open spec fn digit_val(c: char) -> int {
    c as u32 - 48
}

pub open spec fn all_digits(s: Seq<char>) -> bool {
    forall|i: int| 0 <= i < s.len() ==> is_digit_char(#[trigger] s[i])
}

/// The value of a string of decimal digit characters.
pub open spec fn digits_val(s: Seq<char>) -> int
    decreases s.len(),
{
    if s.len() == 0 {
        0
    } else {
        digits_val(s.drop_last()) * 10 + digit_val(s.last())
    }
}

/// What `str::parse::<u64>` accepts: an optional `+` sign, then one or
/// more decimal digits, whose value must fit in the type.
pub open spec fn parse_u64_spec(s: Seq<char>) -> Option<u64> {
    let body = if s.len() > 0 && s[0] == '+' {
        s.skip(1)
    } else {
        s
    };
    if body.len() > 0 && all_digits(body) && digits_val(body) <= u64::MAX {
        Some(digits_val(body) as u64)
    } else {
        None
    }
}

/// What `str::parse::<i64>` accepts: an optional `+` or `-` sign, then one
/// or more decimal digits, whose signed value must fit in the type.
pub open spec fn parse_i64_spec(s: Seq<char>) -> Option<i64> {
    let neg = s.len() > 0 && s[0] == '-';
    let body = if s.len() > 0 && (s[0] == '+' || s[0] == '-') {
        s.skip(1)
    } else {
        s
    };
    if body.len() > 0 && all_digits(body) {
        if neg && digits_val(body) <= i64::MAX + 1 {
            Some((-digits_val(body)) as i64)
        } else if !neg && digits_val(body) <= i64::MAX {
            Some(digits_val(body) as i64)
        } else {
            None
        }
    } else {
        None
    }
}

proof fn lemma_digits_val_nonneg(s: Seq<char>)
    requires
        all_digits(s),
    ensures
        digits_val(s) >= 0,
    decreases s.len(),
{
    if s.len() > 0 {
        assert(all_digits(s.drop_last()));
        lemma_digits_val_nonneg(s.drop_last());
    }
}

proof fn lemma_digits_val_take_step(s: Seq<char>, j: int)
    requires
        0 <= j < s.len(),
    ensures
        digits_val(s.take(j + 1)) == digits_val(s.take(j)) * 10 + digit_val(s[j]),
{
    assert(s.take(j + 1).drop_last() =~= s.take(j));
    assert(s.take(j + 1).last() == s[j]);
}

/// A longer digit string never has a smaller value than its prefix.
proof fn lemma_digits_val_take_mono(s: Seq<char>, j: int)
    requires
        all_digits(s),
        0 <= j <= s.len(),
    ensures
        digits_val(s) >= digits_val(s.take(j)),
    decreases s.len() - j,
{
    if j < s.len() {
        lemma_digits_val_take_step(s, j);
        assert(all_digits(s.take(j))) by {
            assert(forall|i: int|
                0 <= i < s.take(j).len() ==> #[trigger] s.take(j)[i] == s[i]);
        }
        lemma_digits_val_nonneg(s.take(j));
        lemma_digits_val_take_mono(s, j + 1);
    } else {
        assert(s.take(j) =~= s);
    }
}

/// Writes one decimal digit at the end of the string.
fn push_digit(out: &mut String, d: u64)
    requires
        d < 10,
    ensures
        final(out)@ == old(out)@ + seq![digit_char(d as int)],
{
    proof {
        reveal_strlit("0");
        reveal_strlit("1");
        reveal_strlit("2");
        reveal_strlit("3");
        reveal_strlit("4");
        reveal_strlit("5");
        reveal_strlit("6");
        reveal_strlit("7");
        reveal_strlit("8");
        reveal_strlit("9");
    }
    if d == 0 {
        out.append("0");
    } else if d == 1 {
        out.append("1");
    } else if d == 2 {
        out.append("2");
    } else if d == 3 {
        out.append("3");
    } else if d == 4 {
        out.append("4");
    } else if d == 5 {
        out.append("5");
    } else if d == 6 {
        out.append("6");
    } else if d == 7 {
        out.append("7");
    } else if d == 8 {
        out.append("8");
    } else {
        out.append("9");
    }
    proof {
        assert(out@ =~= old(out)@ + seq![digit_char(d as int)]);
    }
}

/// Renders an unsigned number in decimal.
pub fn u64_to_string(n: u64) -> (r: String)
    ensures
        r@ == dec_rep(n as nat),
    decreases n,
{
    if n < 10 {
        let mut s = String::new();
        push_digit(&mut s, n);
        proof {
            assert(s@ =~= dec_rep(n as nat));
        }
        s
    } else {
        let mut s = u64_to_string(n / 10);
        push_digit(&mut s, n % 10);
        proof {
            assert(s@ =~= dec_rep(n as nat));
        }
        s
    }
}

/// Renders a signed number in decimal.
pub fn i64_to_string(t: i64) -> (r: String)
    ensures
        r@ == int_dec_rep(t as int),
{
    if t >= 0 {
        u64_to_string(t as u64)
    } else {
        let m: u64 = ((-(t + 1)) as u64) + 1;
        assert(m == -(t as int));
        let mut s = String::new();
        s.append("-");
        let digits = u64_to_string(m);
        s.append(digits.as_str());
        proof {
            reveal_strlit("-");
            assert(s@ =~= int_dec_rep(t as int));
        }
        s
    }
}

/// Reads an unsigned decimal number as `str::parse::<u64>` would.
pub fn parse_u64(s: &str) -> (r: Option<u64>)
    ensures
        r == parse_u64_spec(s@),
{
    let n = s.unicode_len();
    let offset: usize = if n > 0 && s.get_char(0) == '+' {
        1
    } else {
        0
    };
    let ghost body = if offset == 1 {
        s@.skip(1)
    } else {
        s@
    };
    if n == offset {
        return None;
    }
    let mut acc: u64 = 0;
    let mut k: usize = offset;
    while k < n
        invariant
            offset <= k <= n,
            n == s@.len(),
            offset == 0 || offset == 1,
            offset == 1 <==> s@.len() > 0 && s@[0] == '+',
            body == if offset == 1 { s@.skip(1) } else { s@ },
            all_digits(body.take(k - offset)),
            acc == digits_val(body.take(k - offset)),
        decreases n - k,
    {
        let c = s.get_char(k);
        let cu = c as u32;
        if cu < 48 || cu > 57 {
            assert(body[k - offset] == s@[k as int]);
            assert(!all_digits(body));
            return None;
        }
        let d: u64 = (cu - 48) as u64;
        proof {
            lemma_digits_val_take_step(body, k - offset);
        }
        if acc > (u64::MAX - d) / 10 {
            proof {
                assert(acc * 10 + d > u64::MAX) by (nonlinear_arith)
                    requires
                        acc > (u64::MAX - d) / 10,
                        d < 10,
                ;
                assert(body[k - offset] == s@[k as int]);
                assert(digit_val(body[k - offset]) == d);
                if all_digits(body) {
                    lemma_digits_val_take_mono(body, k + 1 - offset);
                }
            }
            return None;
        }
        proof {
            assert(acc * 10 + d <= u64::MAX) by (nonlinear_arith)
                requires
                    acc <= (u64::MAX - d) / 10,
                    d < 10,
            ;
        }
        acc = acc * 10 + d;
        k += 1;
    }
    proof {
        assert(body.take(n - offset) =~= body);
    }
    Some(acc)
}

/// Reads a signed decimal number as `str::parse::<i64>` would.
pub fn parse_i64(s: &str) -> (r: Option<i64>)
    ensures
        r == parse_i64_spec(s@),
{
    let n = s.unicode_len();
    let mut neg = false;
    let mut offset: usize = 0;
    if n > 0 {
        let c0 = s.get_char(0);
        if c0 == '-' {
            neg = true;
            offset = 1;
        } else if c0 == '+' {
            offset = 1;
        }
    }
    let ghost body = if offset == 1 {
        s@.skip(1)
    } else {
        s@
    };
    if n == offset {
        return None;
    }
    let mut acc: u64 = 0;
    let mut k: usize = offset;
    let bound: u64 = if neg {
        9223372036854775808
    } else {
        9223372036854775807
    };
    while k < n
        invariant
            offset <= k <= n,
            n == s@.len(),
            offset == 0 || offset == 1,
            offset == 1 <==> s@.len() > 0 && (s@[0] == '+' || s@[0] == '-'),
            neg <==> s@.len() > 0 && s@[0] == '-',
            body == if offset == 1 { s@.skip(1) } else { s@ },
            all_digits(body.take(k - offset)),
            acc == digits_val(body.take(k - offset)),
            acc <= bound,
            bound == if neg { i64::MAX + 1 } else { i64::MAX as int },
        decreases n - k,
    {
        let c = s.get_char(k);
        let cu = c as u32;
        if cu < 48 || cu > 57 {
            assert(body[k - offset] == s@[k as int]);
            assert(!all_digits(body));
            return None;
        }
        let d: u64 = (cu - 48) as u64;
        proof {
            lemma_digits_val_take_step(body, k - offset);
        }
        if acc > (bound - d) / 10 {
            proof {
                assert(acc * 10 + d > bound) by (nonlinear_arith)
                    requires
                        acc > (bound - d) / 10,
                        d < 10,
                        d <= bound,
                ;
                assert(body[k - offset] == s@[k as int]);
                assert(digit_val(body[k - offset]) == d);
                if all_digits(body) {
                    lemma_digits_val_take_mono(body, k + 1 - offset);
                }
            }
            return None;
        }
        proof {
            assert(acc * 10 + d <= bound) by (nonlinear_arith)
                requires
                    acc <= (bound - d) / 10,
                    d < 10,
                    d <= bound,
            ;
        }
        acc = acc * 10 + d;
        k += 1;
    }
    proof {
        assert(body.take(n - offset) =~= body);
    }
    if neg {
        if acc == 0 {
            Some(0)
        } else {
            Some(-((acc - 1) as i64) - 1)
        }
    } else {
        Some(acc as i64)
    }
}

/// Compares two string slices character by character.
pub fn str_eq(a: &str, b: &str) -> (r: bool)
    ensures
        r == (a@ == b@),
{
    let n = a.unicode_len();
    if n != b.unicode_len() {
        return false;
    }
    let mut i: usize = 0;
    while i < n
        invariant
            n == a@.len(),
            n == b@.len(),
            i <= n,
            forall|j: int| 0 <= j < i ==> a@[j] == b@[j],
        decreases n - i,
    {
        if a.get_char(i) != b.get_char(i) {
            return false;
        }
        i += 1;
    }
    proof {
        assert(a@ =~= b@);
    }
    true
}

} // verus!
