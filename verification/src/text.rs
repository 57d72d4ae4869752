//! Decimal text: what a run of digits is worth, and how integers and
//! fixed-point quantities are read from and written as text.

use crate::fixed::Milli;
use vstd::prelude::*;
use vstd::string::*;
use vstd::utf8::*;

verus! {

/// `c` is one of the ten ASCII digits.
pub open spec fn is_digit(c: char) -> bool {
    '0' <= c && c <= '9'
}

/// The value of the digit `c`.
pub open spec fn digit_value(c: char) -> int {
    c as int - '0' as int
}

/// Every character of `s` is a digit.
pub open spec fn all_digits(s: Seq<char>) -> bool {
    forall|i: int| 0 <= i < s.len() ==> is_digit(#[trigger] s[i])
}

/// The number that the digits of `s` write in base ten; 0 for the empty run.
pub open spec fn digits_value(s: Seq<char>) -> int
    decreases s.len(),
{
    if s.len() == 0 {
        0
    } else {
        digits_value(s.drop_last()) * 10 + digit_value(s.last())
    }
}

/// `s` starts with a minus sign.
pub open spec fn has_minus(s: Seq<char>) -> bool {
    s.len() > 0 && s[0] == '-'
}

/// `s` without its leading sign, if it has one.
pub open spec fn unsigned_part(s: Seq<char>) -> Seq<char> {
    if s.len() > 0 && (s[0] == '-' || s[0] == '+') {
        s.skip(1)
    } else {
        s
    }
}

/// The integer that `s` writes: an optional sign followed by one or more
/// digits and nothing else. `None` for any other text.
pub open spec fn signed_integer(s: Seq<char>) -> Option<int> {
    let body = unsigned_part(s);
    if body.len() > 0 && all_digits(body) {
        Some(
            if has_minus(s) {
                -digits_value(body)
            } else {
                digits_value(body)
            },
        )
    } else {
        None
    }
}

/// The `i32` that `s` writes, if it writes an integer in range.
pub open spec fn i32_of_text(s: Seq<char>) -> Option<i32> {
    match signed_integer(s) {
        Some(v) => if i32::MIN <= v <= i32::MAX {
            Some(v as i32)
        } else {
            None
        },
        None => None,
    }
}

/// `s` is an unsigned decimal whose integer part has `k` digits: digits,
/// then optionally a point and more digits, with at least one digit in all.
pub open spec fn decimal_split(s: Seq<char>, k: int) -> bool {
    &&& 0 <= k <= s.len()
    &&& all_digits(s.take(k))
    &&& k < s.len() ==> s[k] == '.' && all_digits(s.skip(k + 1))
    &&& (k > 0 || k + 1 < s.len())
}

/// Whether the fraction digits `f` round up to the next thousandth: the
/// fourth digit decides, a half rounding up.
pub open spec fn rounds_up(f: Seq<char>) -> bool {
    f.len() > 3 && digit_value(f[3]) >= 5
}

/// The thousandths that the fraction digits `f` stand for, rounded to the
/// nearest thousandth.
pub open spec fn fraction_thousandths(f: Seq<char>) -> int {
    digits_value((f + seq!['0', '0', '0']).take(3)) + if rounds_up(f) {
        1int
    } else {
        0int
    }
}

/// The thousandths that the unsigned decimal `s` stands for, its integer
/// part being the first `k` characters.
pub open spec fn unsigned_thousandths(s: Seq<char>, k: int) -> int {
    digits_value(s.take(k)) * 1000 + if k < s.len() {
        fraction_thousandths(s.skip(k + 1))
    } else {
        0
    }
}

/// The thousandths that the unsigned decimal `s` stands for; `None` where
/// `s` is no decimal.
pub open spec fn unsigned_decimal(s: Seq<char>) -> Option<int> {
    if exists|k: int| decimal_split(s, k) {
        Some(unsigned_thousandths(s, choose|k: int| decimal_split(s, k)))
    } else {
        None
    }
}

/// The thousandths that the decimal text `s` stands for: an optional sign,
/// then an unsigned decimal. `None` for any other text; exponents and the
/// names of infinities are not read.
pub open spec fn signed_thousandths(s: Seq<char>) -> Option<int> {
    match unsigned_decimal(unsigned_part(s)) {
        Some(v) => Some(
            if has_minus(s) {
                -v
            } else {
                v
            },
        ),
        None => None,
    }
}

/// The fixed-point quantity that `s` writes, if it writes one in range.
pub open spec fn milli_of_text(s: Seq<char>) -> Option<Milli> {
    match signed_thousandths(s) {
        Some(v) => if i64::MIN <= v <= i64::MAX {
            Some(Milli { thousandths: v as i64 })
        } else {
            None
        },
        None => None,
    }
}

/// The character that writes the digit `d`.
pub open spec fn digit_char(d: int) -> char {
    if d == 0 {
        '0'
    } else if d == 1 {
        '1'
    } else if d == 2 {
        '2'
    } else if d == 3 {
        '3'
    } else if d == 4 {
        '4'
    } else if d == 5 {
        '5'
    } else if d == 6 {
        '6'
    } else if d == 7 {
        '7'
    } else if d == 8 {
        '8'
    } else {
        '9'
    }
}

/// The digits of `n` in base ten, without leading zeros; `"0"` for zero.
pub open spec fn nat_text(n: nat) -> Seq<char>
    decreases n,
{
    if n < 10 {
        seq![digit_char(n as int)]
    } else {
        nat_text(n / 10).push(digit_char((n % 10) as int))
    }
}

/// The decimal text of `n`: a minus sign for a negative number, then its
/// digits.
pub open spec fn int_text(n: int) -> Seq<char> {
    if n < 0 {
        seq!['-'] + nat_text((-n) as nat)
    } else {
        nat_text(n as nat)
    }
}

/// A digit run read from ASCII text.
struct DigitRun {
    /// Index of the first character past the run.
    end: usize,
    /// What the run is worth, or `None` if that does not fit in `u64`.
    value: Option<u64>,
}

/// Reads the longest run of digits of `s` that starts at `from`.
fn scan_digits(s: &str, from: usize) -> (run: DigitRun)
    requires
        s.is_ascii(),
        from <= s@.len(),
    ensures
        from <= run.end <= s@.len(),
        all_digits(s@.subrange(from as int, run.end as int)),
        run.end < s@.len() ==> !is_digit(s@[run.end as int]),
        match run.value {
            Some(v) => v == digits_value(s@.subrange(from as int, run.end as int)),
            None => digits_value(s@.subrange(from as int, run.end as int)) > u64::MAX,
        },
{
    proof {
        is_ascii_spec_bytes(s);
    }
    let bytes = s.as_bytes();
    let n = bytes.len();
    let mut value: Option<u64> = Some(0);
    let mut i: usize = from;
    proof {
        assert(s@.subrange(from as int, from as int) =~= Seq::<char>::empty());
    }
    while i < n && 48u8 <= bytes[i] && bytes[i] <= 57u8
        invariant
            from <= i <= n,
            n == s@.len(),
            bytes@.len() == n,
            is_ascii_chars(s@),
            forall|j: int| 0 <= j < n ==> bytes@[j] == s@[j] as u8,
            all_digits(s@.subrange(from as int, i as int)),
            match value {
                Some(v) => v == digits_value(s@.subrange(from as int, i as int)),
                None => digits_value(s@.subrange(from as int, i as int)) > u64::MAX,
            },
        decreases n - i,
    {
        let b: u8 = bytes[i];
        let ghost prefix = s@.subrange(from as int, i as int);
        let ghost next = s@.subrange(from as int, i + 1);
        proof {
            assert(next.drop_last() =~= prefix);
            assert(next.last() == s@[i as int]);
            assert(is_digit(s@[i as int]));
            assert(digit_value(s@[i as int]) == b - 48);
            assert forall|j: int| 0 <= j < next.len() implies is_digit(#[trigger] next[j]) by {
                if j < prefix.len() {
                    assert(next[j] == prefix[j]);
                }
            }
        }
        value = match value {
            Some(v) => match v.checked_mul(10) {
                Some(t) => t.checked_add((b - 48u8) as u64),
                None => None,
            },
            None => None,
        };
        i = i + 1;
    }
    proof {
        if i < n {
            assert(bytes@[i as int] == s@[i as int] as u8);
        }
    }
    DigitRun { end: i, value }
}

/// Text with a character outside ASCII writes neither an integer nor a
/// decimal.
proof fn lemma_non_ascii_not_numeric(s: Seq<char>)
    requires
        !is_ascii_chars(s),
    ensures
        signed_integer(s) is None,
        signed_thousandths(s) is None,
{
    let i = choose|i: int| 0 <= i < s.len() && !('\0' <= #[trigger] s[i] <= '\u{7f}');
    let body = unsigned_part(s);
    let j = if body.len() == s.len() {
        i
    } else {
        i - 1
    };
    assert(0 <= j < body.len() && body[j] == s[i]);
    if body.len() > 0 && all_digits(body) {
        assert(is_digit(body[j]));
    }
    assert forall|k: int| !decimal_split(body, k) by {
        if decimal_split(body, k) {
            if j < k {
                assert(is_digit(body.take(k)[j]));
            } else if j > k {
                assert(is_digit(body.skip(k + 1)[j - k - 1]));
            }
        }
    }
}

/// Reads an `i32` from decimal text: an optional `+` or `-`, then digits.
/// Text that is empty, holds anything else, or names a number outside the
/// range of `i32` gives `None`.
pub fn parse_i32(s: &str) -> (r: Option<i32>)
    ensures
        r == i32_of_text(s@),
{
    if !s.is_ascii() {
        proof {
            lemma_non_ascii_not_numeric(s@);
        }
        return None;
    }
    proof {
        is_ascii_spec_bytes(s);
    }
    let bytes = s.as_bytes();
    let n = bytes.len();
    let negative = n > 0 && bytes[0] == 45u8;
    let start: usize = if n > 0 && (bytes[0] == 45u8 || bytes[0] == 43u8) {
        1
    } else {
        0
    };
    let ghost body = unsigned_part(s@);
    let run = scan_digits(s, start);
    proof {
        assert(body == s@.skip(start as int));
        if run.end < n {
            assert(!is_digit(body[run.end - start]));
        } else {
            assert(s@.subrange(start as int, n as int) =~= body);
        }
    }
    if run.end < n || run.end == start {
        return None;
    }
    match run.value {
        None => None,
        Some(v) => {
            if negative {
                if v <= 2_147_483_648u64 {
                    Some((-(v as i64)) as i32)
                } else {
                    None
                }
            } else if v <= 2_147_483_647u64 {
                Some(v as i32)
            } else {
                None
            }
        },
    }
}

/// Where the digits of a decimal's integer part stop, the split can only be
/// there.
proof fn lemma_split_unique(s: Seq<char>, k: int, other: int)
    requires
        0 <= k <= s.len(),
        all_digits(s.take(k)),
        k < s.len() ==> !is_digit(s[k]),
        decimal_split(s, other),
    ensures
        other == k,
{
    if other < k {
        assert(is_digit(s.take(k)[other]));
    } else if other > k {
        assert(is_digit(s.take(other)[k]));
    }
}

/// What the first three digits of the fraction `f` are worth, from those
/// digits one by one.
proof fn lemma_fraction_digits(f: Seq<char>)
    requires
        all_digits(f),
    ensures
        f.len() == 0 ==> fraction_thousandths(f) == 0,
        f.len() == 1 ==> fraction_thousandths(f) == digit_value(f[0]) * 100,
        f.len() == 2 ==> fraction_thousandths(f) == digit_value(f[0]) * 100 + digit_value(f[1])
            * 10,
        f.len() == 3 ==> fraction_thousandths(f) == digit_value(f[0]) * 100 + digit_value(f[1])
            * 10 + digit_value(f[2]),
        f.len() > 3 ==> fraction_thousandths(f) == digit_value(f[0]) * 100 + digit_value(f[1])
            * 10 + digit_value(f[2]) + if digit_value(f[3]) >= 5 {
            1int
        } else {
            0int
        },
        0 <= fraction_thousandths(f) <= 1000,
{
    let three = (f + seq!['0', '0', '0']).take(3);
    let two = three.drop_last();
    let one = two.drop_last();
    assert(one.drop_last() =~= Seq::<char>::empty());
    assert(digits_value(one.drop_last()) == 0);
    assert(digits_value(one) == digit_value(three[0]));
    assert(digits_value(two) == digit_value(three[0]) * 10 + digit_value(three[1]));
    assert(digits_value(three) == digits_value(two) * 10 + digit_value(three[2]));
    if f.len() >= 1 {
        assert(is_digit(f[0]));
    }
    if f.len() >= 2 {
        assert(is_digit(f[1]));
    }
    if f.len() >= 3 {
        assert(is_digit(f[2]));
    }
}

/// Reads the fraction digits of `s`, which run from `from` to its end.
/// `None` where a character there is no digit.
fn scan_fraction(s: &str, from: usize) -> (r: Option<u64>)
    requires
        s.is_ascii(),
        from <= s@.len(),
    ensures
        match r {
            Some(f) => all_digits(s@.skip(from as int)) && f == fraction_thousandths(
                s@.skip(from as int),
            ) && f <= 1000,
            None => !all_digits(s@.skip(from as int)),
        },
{
    proof {
        is_ascii_spec_bytes(s);
    }
    let bytes = s.as_bytes();
    let n = bytes.len();
    let run = scan_digits(s, from);
    let ghost f = s@.skip(from as int);
    if run.end < n {
        proof {
            assert(!is_digit(f[run.end - from]));
        }
        return None;
    }
    proof {
        assert(s@.subrange(from as int, n as int) =~= f);
        lemma_fraction_digits(f);
    }
    let digits = n - from;
    let mut fraction: u64 = 0;
    if digits >= 1 {
        proof {
            assert(f[0] == s@[from as int] && is_digit(f[0]));
        }
        fraction = fraction + ((bytes[from] - 48u8) as u64) * 100;
    }
    if digits >= 2 {
        proof {
            assert(f[1] == s@[from + 1] && is_digit(f[1]));
        }
        fraction = fraction + ((bytes[from + 1] - 48u8) as u64) * 10;
    }
    if digits >= 3 {
        proof {
            assert(f[2] == s@[from + 2] && is_digit(f[2]));
        }
        fraction = fraction + (bytes[from + 2] - 48u8) as u64;
    }
    if digits >= 4 {
        proof {
            assert(f[3] == s@[from + 3] && is_digit(f[3]));
        }
        if bytes[from + 3] >= 53u8 {
            fraction = fraction + 1;
        }
    }
    Some(fraction)
}

/// Reads the unsigned decimal that `s` holds from `start` to its end, in
/// thousandths. The outer `None` says that the text is no decimal, the inner
/// one that its value is `2^64` thousand or more.
fn scan_decimal(s: &str, start: usize) -> (r: Option<Option<u128>>)
    requires
        s.is_ascii(),
        start <= s@.len(),
    ensures
        match r {
            Some(Some(v)) => unsigned_decimal(s@.skip(start as int)) == Some(v as int),
            Some(None) => unsigned_decimal(s@.skip(start as int)) matches Some(v) && v > u64::MAX
                * 1000,
            None => unsigned_decimal(s@.skip(start as int)) is None,
        },
{
    proof {
        is_ascii_spec_bytes(s);
    }
    let bytes = s.as_bytes();
    let n = bytes.len();
    let ghost body = s@.skip(start as int);
    let whole = scan_digits(s, start);
    let ghost k = whole.end - start;
    proof {
        assert(body.take(k) =~= s@.subrange(start as int, whole.end as int));
        if whole.end < n {
            assert(body[k] == s@[whole.end as int]);
        }
        assert forall|other: int| decimal_split(body, other) implies other == k by {
            lemma_split_unique(body, k, other);
        }
    }
    let mut fraction: u64 = 0;
    if whole.end < n {
        if bytes[whole.end] != 46u8 {
            return None;
        }
        proof {
            assert(body.skip(k + 1) =~= s@.skip(whole.end + 1));
        }
        match scan_fraction(s, whole.end + 1) {
            None => {
                return None;
            },
            Some(f) => {
                fraction = f;
            },
        }
        if whole.end == start && whole.end + 1 == n {
            return None;
        }
    } else if whole.end == start {
        return None;
    }
    proof {
        assert(decimal_split(body, k));
        assert(unsigned_thousandths(body, k) == digits_value(body.take(k)) * 1000 + fraction);
    }
    match whole.value {
        None => Some(None),
        Some(v) => Some(Some((v as u128) * 1000 + fraction as u128)),
    }
}

/// Reads a fixed-point quantity from decimal text: an optional `+` or `-`,
/// digits, and optionally a point and more digits, with at least one digit
/// in all. The value is rounded to the nearest thousandth, a half away from
/// zero. Any other text, and a quantity that does not fit, gives `None`.
pub fn parse_milli(s: &str) -> (r: Option<Milli>)
    ensures
        r == milli_of_text(s@),
{
    if !s.is_ascii() {
        proof {
            lemma_non_ascii_not_numeric(s@);
        }
        return None;
    }
    proof {
        is_ascii_spec_bytes(s);
    }
    let bytes = s.as_bytes();
    let n = bytes.len();
    let negative = n > 0 && bytes[0] == 45u8;
    let start: usize = if n > 0 && (bytes[0] == 45u8 || bytes[0] == 43u8) {
        1
    } else {
        0
    };
    proof {
        assert(unsigned_part(s@) == s@.skip(start as int));
    }
    match scan_decimal(s, start) {
        None => None,
        Some(None) => None,
        Some(Some(total)) => {
            if negative {
                if total <= 9_223_372_036_854_775_808u128 {
                    Some(Milli { thousandths: (-(total as i128)) as i64 })
                } else {
                    None
                }
            } else if total <= 9_223_372_036_854_775_807u128 {
                Some(Milli { thousandths: total as i64 })
            } else {
                None
            }
        },
    }
}

/// Tells whether two strings hold the same characters.
pub fn str_equal(a: &str, b: &str) -> (same: bool)
    ensures
        same == (a@ == b@),
{
    let x = a.as_bytes();
    let y = b.as_bytes();
    proof {
        encode_utf8_decode_utf8(a@);
        encode_utf8_decode_utf8(b@);
    }
    if x.len() != y.len() {
        return false;
    }
    let n = x.len();
    let mut i: usize = 0;
    while i < n
        invariant
            0 <= i <= n,
            x@.len() == n,
            y@.len() == n,
            x@ == a.spec_bytes(),
            y@ == b.spec_bytes(),
            forall|j: int| 0 <= j < i ==> x@[j] == y@[j],
        decreases n - i,
    {
        if x[i] != y[i] {
            proof {
                assert(x@[i as int] != y@[i as int]);
            }
            return false;
        }
        i = i + 1;
    }
    proof {
        assert(x@ =~= y@);
    }
    true
}

/// The one-character text of the digit `d`.
fn digit_str(d: u64) -> (s: &'static str)
    requires
        d < 10,
    ensures
        s@ == seq![digit_char(d as int)],
{
    proof {
        reveal_strlit("0");
        reveal_strlit("1");
        reveal_strlit("2");
        reveal_strlit("3");
        reveal_strlit("4");
        reveal_strlit("5");
        reveal_strlit("6");
        reveal_strlit("7");
        reveal_strlit("8");
        reveal_strlit("9");
    }
    let s = if d == 0 {
        "0"
    } else if d == 1 {
        "1"
    } else if d == 2 {
        "2"
    } else if d == 3 {
        "3"
    } else if d == 4 {
        "4"
    } else if d == 5 {
        "5"
    } else if d == 6 {
        "6"
    } else if d == 7 {
        "7"
    } else if d == 8 {
        "8"
    } else {
        "9"
    };
    proof {
        assert(s@ =~= seq![digit_char(d as int)]);
    }
    s
}

/// The digits written for a number are digits, and are worth the number.
pub proof fn lemma_nat_text_value(n: nat)
    ensures
        nat_text(n).len() > 0,
        all_digits(nat_text(n)),
        digits_value(nat_text(n)) == n,
    decreases n,
{
    let text = nat_text(n);
    if n < 10 {
        assert(text.drop_last() =~= Seq::<char>::empty());
        assert(digits_value(text.drop_last()) == 0);
        assert(text.last() == digit_char(n as int));
    } else {
        lemma_nat_text_value(n / 10);
        assert(text.drop_last() =~= nat_text(n / 10));
        assert(text.last() == digit_char((n % 10) as int));
        assert forall|i: int| 0 <= i < text.len() implies is_digit(#[trigger] text[i]) by {
            if i < text.len() - 1 {
                assert(text[i] == nat_text(n / 10)[i]);
            }
        }
    }
}

/// An integer written as decimal text reads back as itself.
pub proof fn lemma_int_text_reads_back(n: int)
    ensures
        signed_integer(int_text(n)) == Some(n),
        i32::MIN <= n <= i32::MAX ==> i32_of_text(int_text(n)) == Some(n as i32),
{
    let text = int_text(n);
    if n < 0 {
        lemma_nat_text_value((-n) as nat);
        assert(text[0] == '-');
        assert(unsigned_part(text) =~= nat_text((-n) as nat));
    } else {
        lemma_nat_text_value(n as nat);
        assert(is_digit(text[0]));
        assert(unsigned_part(text) == text);
    }
}

/// Appends the digits of `n` to `out`.
fn append_nat(out: &mut String, n: u64)
    ensures
        final(out)@ == old(out)@ + nat_text(n as nat),
    decreases n,
{
    if n >= 10 {
        append_nat(out, n / 10);
    }
    out.append(digit_str(n % 10));
    proof {
        if n >= 10 {
            assert(final(out)@ =~= old(out)@ + nat_text(n as nat));
        } else {
            assert(final(out)@ =~= old(out)@ + nat_text(n as nat));
        }
    }
}

/// Appends the decimal text of `n` to `out`.
pub fn append_int(out: &mut String, n: i64)
    ensures
        final(out)@ == old(out)@ + int_text(n as int),
{
    if n < 0 {
        out.append("-");
        let magnitude: u64 = if n == i64::MIN {
            9_223_372_036_854_775_808u64
        } else {
            (-n) as u64
        };
        append_nat(out, magnitude);
        proof {
            reveal_strlit("-");
            assert("-"@ =~= seq!['-']);
            assert(final(out)@ =~= old(out)@ + int_text(n as int));
        }
    } else {
        append_nat(out, n as u64);
    }
}

/// The decimal text of `n`.
pub fn int_to_string(n: i64) -> (s: String)
    ensures
        s@ == int_text(n as int),
{
    let mut s = String::new();
    append_int(&mut s, n);
    proof {
        assert(s@ =~= int_text(n as int));
    }
    s
}

} // verus!
