//! Decimal text for unsigned 64-bit integers, as the stored login keeps the
//! account id: parsing as `u64::from_str_radix(_, 10)` does, and printing.

use vstd::prelude::*;

verus! {

/// An ASCII decimal digit.
pub open spec fn is_digit(c: char) -> bool {
    '0' <= c <= '9'
}

/// The value of a decimal digit.
pub open spec fn digit_value(c: char) -> int {
    c as int - '0' as int
}

/// The digit that stands for `d`, where `d < 10`.
pub open spec fn digit_char(d: int) -> char {
    ('0' as int + d) as char
}

/// Every character is a decimal digit.
pub open spec fn all_digits(s: Seq<char>) -> bool {
    forall|i: int| 0 <= i < s.len() ==> is_digit(#[trigger] s[i])
}

/// The number that a string of digits denotes (0 for the empty string).
pub open spec fn digits_value(s: Seq<char>) -> int
    decreases s.len(),
{
    if s.len() == 0 {
        0
    } else {
        digits_value(s.drop_last()) * 10 + digit_value(s.last())
    }
}

/// The digits after an optional leading `+`.
pub open spec fn unsigned_digits(s: Seq<char>) -> Seq<char> {
    if s.len() > 0 && s[0] == '+' {
        s.drop_first()
    } else {
        s
    }
}

/// What `u64::from_str_radix(s, 10)` returns, as an option: an optional `+`
/// followed by at least one digit, denoting a value that fits in a `u64`.
pub open spec fn parse_decimal_u64(s: Seq<char>) -> Option<u64> {
    let d = unsigned_digits(s);
    if d.len() > 0 && all_digits(d) && digits_value(d) <= u64::MAX {
        Some(digits_value(d) as u64)
    } else {
        None
    }
}

/// The shortest decimal text of `n`, as `format!("{}", n)` prints it.
pub open spec fn decimal_string(n: nat) -> Seq<char>
    decreases n,
{
    if n < 10 {
        seq![digit_char(n as int)]
    } else {
        decimal_string(n / 10).push(digit_char((n % 10) as int))
    }
}

proof fn lemma_digit_char(d: int)
    requires
        0 <= d < 10,
    ensures
        is_digit(digit_char(d)),
        digit_value(digit_char(d)) == d,
        digit_char(d) != '+',
        digit_char(d) != '\n',
{
    assert(('0' as int + d) as char as int == '0' as int + d);
}

/// A prefix of a digit string denotes no more than the whole string.
proof fn lemma_digits_value_prefix(s: Seq<char>, k: int)
    requires
        all_digits(s),
        0 <= k <= s.len(),
    ensures
        0 <= digits_value(s.take(k)) <= digits_value(s),
    decreases s.len(),
{
    if s.len() == 0 {
        assert(s.take(k) =~= s);
    } else if k == s.len() {
        assert(s.take(k) =~= s);
        lemma_digits_value_prefix(s.drop_last(), 0);
        assert(s.drop_last().take(0) =~= s.take(0));
    } else {
        lemma_digits_value_prefix(s.drop_last(), k);
        assert(s.drop_last().take(k) =~= s.take(k));
        assert(is_digit(s[s.len() - 1]));
    }
}

/// The decimal text of `n` is a non-empty digit string that denotes `n`.
pub proof fn lemma_decimal_string(n: nat)
    ensures
        decimal_string(n).len() > 0,
        all_digits(decimal_string(n)),
        digits_value(decimal_string(n)) == n,
        !decimal_string(n).contains('\n'),
        decimal_string(n)[0] != '+',
    decreases n,
{
    if n < 10 {
        lemma_digit_char(n as int);
        assert(seq![digit_char(n as int)].drop_last() =~= Seq::<char>::empty());
        assert(digits_value(Seq::<char>::empty()) == 0);
        assert(digits_value(decimal_string(n)) == digits_value(Seq::<char>::empty()) * 10
            + digit_value(digit_char(n as int)));
    } else {
        lemma_decimal_string(n / 10);
        lemma_digit_char((n % 10) as int);
        let s = decimal_string(n);
        assert(s.drop_last() =~= decimal_string(n / 10));
        assert(all_digits(s)) by {
            assert forall|i: int| 0 <= i < s.len() implies is_digit(#[trigger] s[i]) by {
                if i < s.len() - 1 {
                    assert(s[i] == decimal_string(n / 10)[i]);
                }
            }
        }
        assert(!s.contains('\n')) by {
            if s.contains('\n') {
                let i = choose|i: int| 0 <= i < s.len() && s[i] == '\n';
                assert(is_digit(s[i]));
            }
        }
        assert(s[0] == decimal_string(n / 10)[0]);
        assert(s.last() == digit_char((n % 10) as int));
        assert((n / 10) * 10 + n % 10 == n);
        assert(digits_value(s) == digits_value(decimal_string(n / 10)) * 10 + digit_value(
            digit_char((n % 10) as int),
        ));
    }
}

/// Reading back the decimal text of a `u64` gives the number itself.
pub proof fn lemma_parse_decimal_string(n: u64)
    ensures
        parse_decimal_u64(decimal_string(n as nat)) == Some(n),
{
    lemma_decimal_string(n as nat);
}

/// A single digit reads as its value.
pub proof fn lemma_parse_single_digit(c: char)
    requires
        '0' <= c <= '9',
    ensures
        parse_decimal_u64(seq![c]) == Some((c as int - '0' as int) as u64),
{
    let s = seq![c];
    assert(unsigned_digits(s) == s);
    assert(s.drop_last() =~= Seq::<char>::empty());
    assert(digits_value(Seq::<char>::empty()) == 0);
}

/// Appending a digit to a number's text multiplies the number by ten and
/// adds the digit, as long as the result fits in a `u64`.
pub proof fn lemma_parse_appended_digit(s: Seq<char>, c: char, v: u64)
    requires
        parse_decimal_u64(s) == Some(v),
        '0' <= c <= '9',
        10 * v + (c as int - '0' as int) <= u64::MAX,
    ensures
        parse_decimal_u64(s.push(c)) == Some((10 * v + (c as int - '0' as int)) as u64),
{
    let d = unsigned_digits(s);
    let e = unsigned_digits(s.push(c));
    assert(s.len() > 0);
    assert(s.push(c)[0] == s[0]);
    if s[0] == '+' {
        assert(e =~= d.push(c));
    } else {
        assert(e =~= d.push(c));
    }
    assert(e.drop_last() =~= d);
    assert(d.len() > 0 && all_digits(d) && digits_value(d) <= u64::MAX);
    lemma_digits_value_prefix(d, d.len() as int);
    assert(d.take(d.len() as int) =~= d);
    assert(digits_value(d) == v as int);
    assert(e.last() == c);
    assert(digits_value(e) == digits_value(d) * 10 + digit_value(c));
    assert(all_digits(e)) by {
        assert forall|i: int| 0 <= i < e.len() implies is_digit(#[trigger] e[i]) by {
            if i < d.len() {
                assert(e[i] == d[i]);
            }
        }
    }
}

/// Text holding a character other than a digit, past an optional leading
/// `+`, does not read as a number; neither does empty text or a lone `+`.
pub proof fn lemma_parse_rejects_non_digits(s: Seq<char>, i: int)
    ensures
        s.len() == 0 ==> parse_decimal_u64(s) is None,
        s =~= seq!['+'] ==> parse_decimal_u64(s) is None,
        0 < i < s.len() && !('0' <= s[i] <= '9') ==> parse_decimal_u64(s) is None,
        s.len() > 0 && !('0' <= s[0] <= '9') && s[0] != '+' ==> parse_decimal_u64(s) is None,
{
    if 0 < i < s.len() && !('0' <= s[i] <= '9') {
        let d = unsigned_digits(s);
        if s[0] == '+' {
            assert(d[i - 1] == s[i]);
        } else {
            assert(d[i] == s[i]);
        }
    }
    if s.len() > 0 && !('0' <= s[0] <= '9') && s[0] != '+' {
        assert(unsigned_digits(s)[0] == s[0]);
    }
}

/// The printed text of a number is all digits, with no leading zero unless
/// the number is zero.
pub proof fn lemma_decimal_string_digits(n: nat)
    ensures
        forall|i: int|
            0 <= i < decimal_string(n).len() ==> '0' <= #[trigger] decimal_string(n)[i] <= '9',
        decimal_string(n)[0] == '0' <==> n == 0,
        decimal_string(n).len() == 1 <==> n < 10,
    decreases n,
{
    lemma_decimal_string(n);
    if n < 10 {
        lemma_digit_char(n as int);
        assert(('0' as int + n) as char as int == '0' as int + n);
    } else {
        lemma_decimal_string_digits(n / 10);
        lemma_decimal_string(n / 10);
        assert(decimal_string(n)[0] == decimal_string(n / 10)[0]);
    }
    assert forall|i: int| 0 <= i < decimal_string(n).len() implies '0' <= #[trigger] decimal_string(
        n,
    )[i] <= '9' by {
        assert(is_digit(decimal_string(n)[i]));
    }
}

/// The text of one digit.
fn digit_str(d: u64) -> (s: &'static str)
    requires
        d < 10,
    ensures
        s@ == seq![digit_char(d as int)],
{
    proof {
        reveal_strlit("0");
        reveal_strlit("1");
        reveal_strlit("2");
        reveal_strlit("3");
        reveal_strlit("4");
        reveal_strlit("5");
        reveal_strlit("6");
        reveal_strlit("7");
        reveal_strlit("8");
        reveal_strlit("9");
    }
    if d == 0 {
        "0"
    } else if d == 1 {
        "1"
    } else if d == 2 {
        "2"
    } else if d == 3 {
        "3"
    } else if d == 4 {
        "4"
    } else if d == 5 {
        "5"
    } else if d == 6 {
        "6"
    } else if d == 7 {
        "7"
    } else if d == 8 {
        "8"
    } else {
        "9"
    }
}

/// Prints `n` in decimal.
pub fn format_u64(n: u64) -> (s: String)
    ensures
        s@ == decimal_string(n as nat),
    decreases n,
{
    if n < 10 {
        digit_str(n).to_owned()
    } else {
        let mut s = format_u64(n / 10);
        s.append(digit_str(n % 10));
        s
    }
}

/// Parses decimal text as `u64::from_str_radix(s, 10)` does.
pub fn parse_u64(s: &str) -> (res: Option<u64>)
    ensures
        res == parse_decimal_u64(s@),
{
    let n = s.unicode_len();
    let mut start: usize = 0;
    if n > 0 && s.get_char(0) == '+' {
        start = 1;
    }
    let ghost d = unsigned_digits(s@);
    assert(d =~= s@.subrange(start as int, n as int));
    if start >= n {
        return None;
    }
    let mut value: u64 = 0;
    let mut i: usize = start;
    assert(d.take(0) =~= Seq::<char>::empty());
    while i < n
        invariant
            n == s@.len(),
            start <= i <= n,
            d == s@.subrange(start as int, n as int),
            d == unsigned_digits(s@),
            all_digits(d.take(i - start)),
            value == digits_value(d.take(i - start)),
        decreases n - i,
    {
        let c = s.get_char(i);
        assert(c == d[i - start]);
        assert(d.take(i - start + 1).drop_last() =~= d.take(i - start));
        if c < '0' || c > '9' {
            assert(!all_digits(d));
            return None;
        }
        let digit: u64 = (c as u32 - '0' as u32) as u64;
        assert(digit == digit_value(c));
        match value.checked_mul(10) {
            Some(tens) => match tens.checked_add(digit) {
                Some(next) => {
                    value = next;
                },
                None => {
                    proof {
                        if all_digits(d) {
                            lemma_digits_value_prefix(d, i - start + 1);
                        }
                    }
                    return None;
                },
            },
            None => {
                proof {
                    if all_digits(d) {
                        lemma_digits_value_prefix(d, i - start + 1);
                    }
                }
                return None;
            },
        }
        i = i + 1;
    }
    assert(d.take(n - start) =~= d);
    Some(value)
}

} // verus!
