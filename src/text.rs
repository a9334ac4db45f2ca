use vstd::prelude::*;

verus! {

/// The digits of bases up to sixteen, lower case.
pub open spec fn digit_chars() -> Seq<char> {
    seq!['0', '1', '2', '3', '4', '5', '6', '7', '8', '9', 'a', 'b', 'c', 'd', 'e', 'f']
}

/// `n` written in decimal, without leading zeroes.
pub open spec fn decimal_digits(n: nat) -> Seq<char>
    decreases n,
{
    if n < 10 {
        seq![digit_chars()[n as int]]
    } else {
        decimal_digits(n / 10).push(digit_chars()[(n % 10) as int])
    }
}

/// `n` written in lower-case hexadecimal, without leading zeroes.
pub open spec fn hex_digits(n: nat) -> Seq<char>
    decreases n,
{
    if n < 16 {
        seq![digit_chars()[n as int]]
    } else {
        hex_digits(n / 16).push(digit_chars()[(n % 16) as int])
    }
}

/// `v` written in decimal, with a leading `-` when negative.
pub open spec fn decimal_string(v: int) -> Seq<char> {
    if v < 0 {
        seq!['-'] + decimal_digits((-v) as nat)
    } else {
        decimal_digits(v as nat)
    }
}

pub open spec fn is_decimal_digit(c: char) -> bool {
    '0' <= c && c <= '9'
}

/// A non-empty run of decimal digits.
pub open spec fn all_digits(s: Seq<char>) -> bool {
    s.len() > 0 && forall|i: int| 0 <= i < s.len() ==> is_decimal_digit(#[trigger] s[i])
}

/// The value of a run of decimal digits.
pub open spec fn digits_value(s: Seq<char>) -> int
    decreases s.len(),
{
    if s.len() == 0 {
        0
    } else {
        digits_value(s.drop_last()) * 10 + (s.last() as int - '0' as int)
    }
}

/// The integer that `s` writes: an optional `+` or `-` followed by decimal
/// digits and nothing else.
pub open spec fn decimal_int(s: Seq<char>) -> Option<int> {
    if s.len() > 0 && (s[0] == '-' || s[0] == '+') {
        if all_digits(s.drop_first()) {
            if s[0] == '-' {
                Some(-digits_value(s.drop_first()))
            } else {
                Some(digits_value(s.drop_first()))
            }
        } else {
            None
        }
    } else if all_digits(s) {
        Some(digits_value(s))
    } else {
        None
    }
}

/// Whether `s` writes an integer within `[lo, hi]`.
pub open spec fn parses_within(s: Seq<char>, lo: int, hi: int) -> bool {
    decimal_int(s) is Some && lo <= decimal_int(s)->Some_0 <= hi
}

proof fn lemma_digits_value_nonneg(s: Seq<char>)
    requires
        forall|i: int| 0 <= i < s.len() ==> is_decimal_digit(#[trigger] s[i]),
    ensures
        digits_value(s) >= 0,
    decreases s.len(),
{
    if s.len() > 0 {
        lemma_digits_value_nonneg(s.drop_last());
    }
}

/// A prefix of a run of digits has a value no larger than the run.
proof fn lemma_digits_prefix_le(s: Seq<char>, k: int)
    requires
        0 <= k <= s.len(),
        forall|i: int| 0 <= i < s.len() ==> is_decimal_digit(#[trigger] s[i]),
    ensures
        digits_value(s.take(k)) <= digits_value(s),
    decreases s.len(),
{
    if k < s.len() {
        lemma_digits_prefix_le(s.drop_last(), k);
        assert(s.drop_last().take(k) =~= s.take(k));
        lemma_digits_value_nonneg(s.drop_last());
    } else {
        assert(s.take(k) =~= s);
    }
}

/// Reads a decimal integer: an optional sign followed by digits, with no
/// other character. `None` where `s` writes no integer or one outside the
/// range of `i64`.
pub fn parse_i64(s: &str) -> (r: Option<i64>)
    ensures
        r is Some <==> parses_within(s@, i64::MIN as int, i64::MAX as int),
        r is Some ==> r->Some_0 == decimal_int(s@)->Some_0,
{
    let n = s.unicode_len();
    if n == 0 {
        return None;
    }
    let first = s.get_char(0);
    let signed = first == '-' || first == '+';
    let start: usize = if signed {
        1
    } else {
        0
    };
    if start == n {
        return None;
    }
    let ghost body = s@.subrange(start as int, n as int);
    proof {
        if signed {
            assert(body =~= s@.drop_first());
        } else {
            assert(body =~= s@);
        }
    }
    let mut acc: u64 = 0;
    let mut i: usize = start;
    while i < n
        invariant
            start <= i <= n,
            n == s@.len(),
            body == s@.subrange(start as int, n as int),
            acc as int == digits_value(body.take(i - start)),
            acc <= 9223372036854775808u64,
            forall|j: int| 0 <= j < i - start ==> is_decimal_digit(#[trigger] body[j]),
            first == s@[0],
            signed == (first == '-' || first == '+'),
            start == (if signed {
                1usize
            } else {
                0usize
            }),
            signed ==> body == s@.drop_first(),
            !signed ==> body == s@,
        decreases n - i,
    {
        let c = s.get_char(i);
        if !('0' <= c && c <= '9') {
            assert(!is_decimal_digit(body[i - start]));
            assert(!all_digits(body));
            return None;
        }
        let d: u64 = (c as u32 - '0' as u32) as u64;
        let next: u128 = (acc as u128) * 10 + (d as u128);
        proof {
            let prefix = body.take(i - start + 1);
            assert(prefix.drop_last() =~= body.take(i - start));
            assert(prefix.last() == c);
            assert(digits_value(prefix) == next);
        }
        if next > 9223372036854775808u128 {
            proof {
                if all_digits(body) {
                    lemma_digits_prefix_le(body, i - start + 1);
                    assert(digits_value(body) > 9223372036854775808);
                }
            }
            return None;
        }
        acc = next as u64;
        i = i + 1;
    }
    assert(body.take(n - start) =~= body);
    if first == '-' {
        if acc == 9223372036854775808u64 {
            Some(i64::MIN)
        } else {
            Some(-(acc as i64))
        }
    } else if acc > 9223372036854775807u64 {
        None
    } else {
        Some(acc as i64)
    }
}

/// Reads a decimal integer as `parse_i64` does, within the range of `i32`.
pub fn parse_i32(s: &str) -> (r: Option<i32>)
    ensures
        r is Some <==> parses_within(s@, i32::MIN as int, i32::MAX as int),
        r is Some ==> r->Some_0 == decimal_int(s@)->Some_0,
{
    match parse_i64(s) {
        Some(v) => if i32::MIN as i64 <= v && v <= i32::MAX as i64 {
            Some(v as i32)
        } else {
            None
        },
        None => None,
    }
}

/// Reads `true` or `false`, and nothing else.
pub fn parse_bool(s: &str) -> (r: Option<bool>)
    ensures
        r == (if s@ == "true"@ {
            Some(true)
        } else if s@ == "false"@ {
            Some(false)
        } else {
            None::<bool>
        }),
{
    let given = String::from_str(s);
    if given == String::from_str("true") {
        Some(true)
    } else if given == String::from_str("false") {
        Some(false)
    } else {
        None
    }
}

/// `"true"` or `"false"`.
pub fn bool_text(b: bool) -> (r: String)
    ensures
        r@ == (if b {
            "true"@
        } else {
            "false"@
        }),
{
    if b {
        String::from_str("true")
    } else {
        String::from_str("false")
    }
}

fn push_digit(out: &mut String, d: u64)
    requires
        d < 16,
    ensures
        final(out)@ == old(out)@.push(digit_chars()[d as int]),
{
    let t: &str = match d {
        0 => "0",
        1 => "1",
        2 => "2",
        3 => "3",
        4 => "4",
        5 => "5",
        6 => "6",
        7 => "7",
        8 => "8",
        9 => "9",
        10 => "a",
        11 => "b",
        12 => "c",
        13 => "d",
        14 => "e",
        _ => "f",
    };
    proof {
        reveal_strlit("0");
        reveal_strlit("1");
        reveal_strlit("2");
        reveal_strlit("3");
        reveal_strlit("4");
        reveal_strlit("5");
        reveal_strlit("6");
        reveal_strlit("7");
        reveal_strlit("8");
        reveal_strlit("9");
        reveal_strlit("a");
        reveal_strlit("b");
        reveal_strlit("c");
        reveal_strlit("d");
        reveal_strlit("e");
        reveal_strlit("f");
    }
    assert(t@ =~= seq![digit_chars()[d as int]]);
    out.append(t);
}

fn push_decimal(out: &mut String, n: u64)
    ensures
        final(out)@ == old(out)@ + decimal_digits(n as nat),
    decreases n,
{
    if n >= 10 {
        push_decimal(out, n / 10);
    }
    push_digit(out, n % 10);
    assert(final(out)@ =~= old(out)@ + decimal_digits(n as nat));
}

fn push_hex(out: &mut String, n: u64)
    ensures
        final(out)@ == old(out)@ + hex_digits(n as nat),
    decreases n,
{
    if n >= 16 {
        push_hex(out, n / 16);
    }
    push_digit(out, n % 16);
    assert(final(out)@ =~= old(out)@ + hex_digits(n as nat));
}

/// `v` in decimal.
pub fn decimal_text(v: i64) -> (r: String)
    ensures
        r@ == decimal_string(v as int),
{
    let mut out = String::new();
    if v < 0 {
        out.append("-");
        proof {
            reveal_strlit("-");
        }
        let magnitude: u64 = (-(v as i128)) as u64;
        push_decimal(&mut out, magnitude);
    } else {
        push_decimal(&mut out, v as u64);
    }
    assert(out@ =~= decimal_string(v as int));
    out
}

/// `n` in lower-case hexadecimal.
pub fn hex_text(n: u64) -> (r: String)
    ensures
        r@ == hex_digits(n as nat),
{
    let mut out = String::new();
    push_hex(&mut out, n);
    assert(out@ =~= hex_digits(n as nat));
    out
}

} // verus!
