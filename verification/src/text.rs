//! Texts: the views of strings, their comparison, and the decimal numerals
//! that the library writes into paths, queries and JSON and reads back.
use vstd::prelude::*;
use vstd::string::*;

verus! {

/// The numeral for a value below ten.
pub open spec fn digit_char(d: int) -> char {
    if d == 0 {
        '0'
    } else if d == 1 {
        '1'
    } else if d == 2 {
        '2'
    } else if d == 3 {
        '3'
    } else if d == 4 {
        '4'
    } else if d == 5 {
        '5'
    } else if d == 6 {
        '6'
    } else if d == 7 {
        '7'
    } else if d == 8 {
        '8'
    } else {
        '9'
    }
}

/// Whether `c` is one of the ten decimal numerals.
pub open spec fn is_digit(c: char) -> bool {
    c == '0' || c == '1' || c == '2' || c == '3' || c == '4' || c == '5' || c == '6' || c == '7'
        || c == '8' || c == '9'
}

/// The value of a numeral; zero for any other character.
pub open spec fn digit_value(c: char) -> int {
    if c == '1' {
        1
    } else if c == '2' {
        2
    } else if c == '3' {
        3
    } else if c == '4' {
        4
    } else if c == '5' {
        5
    } else if c == '6' {
        6
    } else if c == '7' {
        7
    } else if c == '8' {
        8
    } else if c == '9' {
        9
    } else {
        0
    }
}

/// Whether every character of `s` is a numeral.
pub open spec fn all_digits(s: Seq<char>) -> bool {
    forall|i: int| 0 <= i < s.len() ==> is_digit(#[trigger] s[i])
}

/// The shortest decimal numeral of `n`, most significant digit first.
pub open spec fn digits_of(n: nat) -> Seq<char>
    decreases n,
{
    if n < 10 {
        seq![digit_char(n as int)]
    } else {
        digits_of(n / 10).push(digit_char((n % 10) as int))
    }
}

/// The number that a sequence of numerals denotes; leading zeros count for
/// nothing and the empty sequence denotes zero.
pub open spec fn digits_value(s: Seq<char>) -> nat
    decreases s.len(),
{
    if s.len() == 0 {
        0
    } else {
        (digits_value(s.drop_last()) * 10 + digit_value(s.last())) as nat
    }
}

/// The decimal numeral of an integer: a minus sign before the digits of a
/// negative one.
pub open spec fn int_text(i: int) -> Seq<char> {
    if i < 0 {
        seq!['-'] + digits_of((-i) as nat)
    } else {
        digits_of(i as nat)
    }
}

/// The integer that `s` denotes: an optional minus sign, then at least one
/// numeral and nothing else. `None` for every other text.
pub open spec fn text_int(s: Seq<char>) -> Option<int> {
    if s.len() > 0 && s[0] == '-' {
        let digits = s.subrange(1, s.len() as int);
        if digits.len() > 0 && all_digits(digits) {
            Some(-(digits_value(digits) as int))
        } else {
            None
        }
    } else if s.len() > 0 && all_digits(s) {
        Some(digits_value(s) as int)
    } else {
        None
    }
}

/// Every numeral is recognised as one and keeps its value.
pub proof fn lemma_digit_char(d: int)
    requires
        0 <= d < 10,
    ensures
        is_digit(digit_char(d)),
        digit_value(digit_char(d)) == d,
        digit_char(d) != '-',
{
}

/// The numeral of a number holds digits only, at least one, and denotes that
/// number.
pub proof fn lemma_digits_of(n: nat)
    ensures
        digits_of(n).len() >= 1,
        all_digits(digits_of(n)),
        digits_value(digits_of(n)) == n,
        digits_of(n)[0] != '-',
    decreases n,
{
    if n < 10 {
        lemma_digit_char(n as int);
        let s = digits_of(n);
        assert(s.drop_last() =~= Seq::<char>::empty());
        assert(digits_value(s.drop_last()) == 0);
    } else {
        lemma_digits_of(n / 10);
        lemma_digit_char((n % 10) as int);
        let head = digits_of(n / 10);
        let s = digits_of(n);
        assert(s.drop_last() =~= head);
        assert(s.last() == digit_char((n % 10) as int));
        assert(s[0] == head[0]);
    }
}

/// Reading back the numeral of an integer gives that integer.
pub proof fn lemma_text_int_of_int_text(i: int)
    ensures
        text_int(int_text(i)) == Some(i),
{
    if i < 0 {
        let m = (-i) as nat;
        lemma_digits_of(m);
        let s = int_text(i);
        assert(s[0] == '-');
        assert(s.subrange(1, s.len() as int) =~= digits_of(m));
    } else {
        lemma_digits_of(i as nat);
    }
}

/// A longer run of numerals denotes no less than any of its beginnings.
pub proof fn lemma_digits_value_grows(s: Seq<char>, k: int)
    requires
        0 <= k <= s.len(),
    ensures
        digits_value(s.take(k)) <= digits_value(s),
    decreases s.len() - k,
{
    if k == s.len() {
        assert(s.take(k) =~= s);
    } else {
        lemma_digits_value_grows(s, k + 1);
        let longer = s.take(k + 1);
        assert(longer.drop_last() =~= s.take(k));
    }
}

/// The integer that `s` denotes, where it lies between `low` and `high`.
pub open spec fn text_int_within(s: Seq<char>, low: int, high: int) -> Option<int> {
    match text_int(s) {
        Some(v) => if low <= v <= high {
            Some(v)
        } else {
            None
        },
        None => None,
    }
}

fn digit_str(d: u64) -> (s: &'static str)
    requires
        d < 10,
    ensures
        s@ == seq![digit_char(d as int)],
{
    proof {
        reveal_strlit("0");
        reveal_strlit("1");
        reveal_strlit("2");
        reveal_strlit("3");
        reveal_strlit("4");
        reveal_strlit("5");
        reveal_strlit("6");
        reveal_strlit("7");
        reveal_strlit("8");
        reveal_strlit("9");
    }
    let s = if d == 0 {
        "0"
    } else if d == 1 {
        "1"
    } else if d == 2 {
        "2"
    } else if d == 3 {
        "3"
    } else if d == 4 {
        "4"
    } else if d == 5 {
        "5"
    } else if d == 6 {
        "6"
    } else if d == 7 {
        "7"
    } else if d == 8 {
        "8"
    } else {
        "9"
    };
    assert(s@ =~= seq![digit_char(d as int)]);
    s
}

fn digit_of(c: char) -> (r: Option<u64>)
    ensures
        r is Some <==> is_digit(c),
        r matches Some(d) ==> d == digit_value(c) && d < 10,
{
    if c == '0' {
        Some(0)
    } else if c == '1' {
        Some(1)
    } else if c == '2' {
        Some(2)
    } else if c == '3' {
        Some(3)
    } else if c == '4' {
        Some(4)
    } else if c == '5' {
        Some(5)
    } else if c == '6' {
        Some(6)
    } else if c == '7' {
        Some(7)
    } else if c == '8' {
        Some(8)
    } else if c == '9' {
        Some(9)
    } else {
        None
    }
}

/// Appends the decimal numeral of `n` to `out`.
pub fn append_decimal(out: &mut String, n: u64)
    ensures
        final(out)@ == old(out)@ + digits_of(n as nat),
    decreases n,
{
    if n >= 10 {
        append_decimal(out, n / 10);
    }
    out.append(digit_str(n % 10));
    assert(out@ =~= old(out)@ + digits_of(n as nat));
}

/// The decimal numeral of `n`.
pub fn decimal(n: u64) -> (s: String)
    ensures
        s@ == digits_of(n as nat),
{
    let mut s = String::new();
    append_decimal(&mut s, n);
    assert(s@ =~= digits_of(n as nat));
    s
}

/// The decimal numeral of `i`, with a minus sign where it is negative.
pub fn signed_decimal(i: i64) -> (s: String)
    ensures
        s@ == int_text(i as int),
{
    if i < 0 {
        let magnitude: u64 = (-(i + 1)) as u64 + 1;
        let mut s = String::from_str("-");
        proof {
            reveal_strlit("-");
        }
        append_decimal(&mut s, magnitude);
        assert(s@ =~= int_text(i as int));
        s
    } else {
        decimal(i as u64)
    }
}

/// Reads the numerals of `s` from position `from` to its end. `None` where
/// there is a character that is no numeral, or where the number is too large
/// for a `u64`.
fn parse_digits(s: &str, from: usize) -> (r: Option<u64>)
    requires
        from <= s@.len(),
    ensures
        r == (if all_digits(s@.subrange(from as int, s@.len() as int)) && digits_value(
            s@.subrange(from as int, s@.len() as int),
        ) <= u64::MAX {
            Some(digits_value(s@.subrange(from as int, s@.len() as int)) as u64)
        } else {
            None
        }),
{
    let n = s.unicode_len();
    let ghost run = s@.subrange(from as int, s@.len() as int);
    let mut value: u64 = 0;
    let mut i: usize = from;
    while i < n
        invariant
            from <= i <= n,
            n == s@.len(),
            run == s@.subrange(from as int, s@.len() as int),
            all_digits(run.take(i - from)),
            value == digits_value(run.take(i - from)),
        decreases n - i,
    {
        let c = s.get_char(i);
        let ghost seen = run.take(i - from);
        let ghost next = run.take(i - from + 1);
        proof {
            assert(next.drop_last() =~= seen);
            assert(next.last() == c);
            assert(run[i - from] == c);
        }
        match digit_of(c) {
            None => {
                return None;
            },
            Some(d) => {
                if value > (u64::MAX - d) / 10 {
                    proof {
                        if all_digits(run) {
                            lemma_digits_value_grows(run, i - from + 1);
                        }
                    }
                    return None;
                }
                value = value * 10 + d;
                proof {
                    assert forall|k: int| 0 <= k < next.len() implies is_digit(
                        #[trigger] next[k],
                    ) by {
                        if k < seen.len() {
                            assert(next[k] == seen[k]);
                        }
                    }
                }
                i = i + 1;
            },
        }
    }
    proof {
        assert(run.take(i - from) =~= run);
    }
    Some(value)
}

/// Reads a decimal numeral that fits a `u64`.
pub fn parse_u64(s: &str) -> (r: Option<u64>)
    ensures
        match text_int_within(s@, 0, u64::MAX as int) {
            Some(v) => r == Some(v as u64),
            None => r is None,
        },
{
    let n = s.unicode_len();
    if n == 0 {
        return None;
    }
    if s.get_char(0) == '-' {
        if n == 1 {
            return None;
        }
        match parse_digits(s, 1) {
            Some(v) => if v == 0 {
                Some(0)
            } else {
                None
            },
            None => None,
        }
    } else {
        proof {
            assert(s@.subrange(0, s@.len() as int) =~= s@);
        }
        parse_digits(s, 0)
    }
}

/// Reads a decimal numeral that fits an `i64`.
pub fn parse_i64(s: &str) -> (r: Option<i64>)
    ensures
        match text_int_within(s@, i64::MIN as int, i64::MAX as int) {
            Some(v) => r == Some(v as i64),
            None => r is None,
        },
{
    let n = s.unicode_len();
    if n == 0 {
        return None;
    }
    if s.get_char(0) == '-' {
        if n == 1 {
            return None;
        }
        match parse_digits(s, 1) {
            Some(v) => if v <= 0x7fff_ffff_ffff_ffff {
                Some(-(v as i64))
            } else if v == 0x8000_0000_0000_0000 {
                Some(i64::MIN)
            } else {
                None
            },
            None => None,
        }
    } else {
        proof {
            assert(s@.subrange(0, s@.len() as int) =~= s@);
        }
        match parse_digits(s, 0) {
            Some(v) => if v <= 0x7fff_ffff_ffff_ffff {
                Some(v as i64)
            } else {
                None
            },
            None => None,
        }
    }
}

/// The view of a string that may be absent.
pub open spec fn opt_text(s: Option<String>) -> Option<Seq<char>> {
    match s {
        Some(t) => Some(t@),
        None => None,
    }
}

/// The view of a borrowed string that may be absent.
pub open spec fn opt_text_ref(s: Option<&String>) -> Option<Seq<char>> {
    match s {
        Some(t) => Some(t@),
        None => None,
    }
}

/// Whether two texts hold the same characters.
pub fn str_eq(a: &str, b: &str) -> (same: bool)
    ensures
        same == (a@ == b@),
{
    let n = a.unicode_len();
    if n != b.unicode_len() {
        return false;
    }
    let mut i: usize = 0;
    while i < n
        invariant
            0 <= i <= n,
            n == a@.len(),
            n == b@.len(),
            forall|k: int| 0 <= k < i ==> a@[k] == b@[k],
        decreases n - i,
    {
        if a.get_char(i) != b.get_char(i) {
            return false;
        }
        i = i + 1;
    }
    assert(a@ =~= b@);
    true
}

} // verus!
