//! Decimal text: parsing a typed draft into an exact rational, and
//! rendering axis-label values as decimal strings.
//!
//! The accepted draft grammar is a plain decimal number: an optional `+` or
//! `-` sign, then digits with at most one `.` between them, and at least one
//! digit. The parsed value is exact: `sign * digits / 10^(fraction digits)`.

use vstd::prelude::*;

use crate::rat::Rat;
use crate::rat::RatV;

verus! {

/// The value of a decimal digit, or 10 for any other character.
pub open spec fn digit_val(c: char) -> int {
    if c == '0' {
        0
    } else if c == '1' {
        1
    } else if c == '2' {
        2
    } else if c == '3' {
        3
    } else if c == '4' {
        4
    } else if c == '5' {
        5
    } else if c == '6' {
        6
    } else if c == '7' {
        7
    } else if c == '8' {
        8
    } else if c == '9' {
        9
    } else {
        10
    }
}

/// Is `c` a decimal digit?
pub open spec fn is_digit(c: char) -> bool {
    digit_val(c) < 10
}

/// How many `.` characters the text holds.
pub open spec fn dot_count(s: Seq<char>) -> int
    decreases s.len(),
{
    if s.len() == 0 {
        0
    } else {
        dot_count(s.drop_last()) + if s.last() == '.' {
            1int
        } else {
            0int
        }
    }
}

/// How many digit characters the text holds.
pub open spec fn digit_count(s: Seq<char>) -> int
    decreases s.len(),
{
    if s.len() == 0 {
        0
    } else {
        digit_count(s.drop_last()) + if is_digit(s.last()) {
            1int
        } else {
            0int
        }
    }
}

/// Is the unsigned part of a draft shaped like a decimal number: only digits
/// and dots, with at most one dot?
pub open spec fn body_ok(s: Seq<char>) -> bool
    decreases s.len(),
{
    if s.len() == 0 {
        true
    } else {
        body_ok(s.drop_last()) && (is_digit(s.last()) || (s.last() == '.' && dot_count(
            s.drop_last(),
        ) == 0))
    }
}

/// The integer read from the digits of the text, ignoring any dot.
pub open spec fn digits_val(s: Seq<char>) -> int
    decreases s.len(),
{
    if s.len() == 0 {
        0
    } else if s.last() == '.' {
        digits_val(s.drop_last())
    } else {
        digits_val(s.drop_last()) * 10 + digit_val(s.last())
    }
}

/// How many digits stand after the dot.
pub open spec fn frac_digits(s: Seq<char>) -> int
    decreases s.len(),
{
    if s.len() == 0 {
        0
    } else if s.last() == '.' {
        0
    } else {
        frac_digits(s.drop_last()) + if dot_count(s.drop_last()) >= 1 {
            1int
        } else {
            0int
        }
    }
}

/// `10^n`.
pub open spec fn pow10(n: nat) -> int
    decreases n,
{
    if n == 0 {
        1
    } else {
        10 * pow10((n - 1) as nat)
    }
}

/// Where the unsigned part of the draft begins: after a leading sign.
pub open spec fn parse_start(s: Seq<char>) -> int {
    if s.len() > 0 && (s[0] == '-' || s[0] == '+') {
        1
    } else {
        0
    }
}

/// What a draft parses to: `None` unless the text is a decimal number whose
/// exact value fits the machine representation, else the value as a
/// rational.
pub open spec fn parse_of(s: Seq<char>) -> Option<RatV> {
    let neg = s.len() > 0 && s[0] == '-';
    let body = s.subrange(parse_start(s), s.len() as int);
    if body_ok(body) && digit_count(body) > 0 {
        let mag = digits_val(body);
        let den = pow10(frac_digits(body) as nat);
        if mag <= i64::MAX && den <= i64::MAX {
            Some(
                RatV {
                    num: if neg {
                        -mag
                    } else {
                        mag
                    },
                    den,
                },
            )
        } else {
            None
        }
    } else {
        None
    }
}

proof fn lemma_pow10_pos(n: nat)
    ensures
        pow10(n) >= 1,
    decreases n,
{
    if n > 0 {
        lemma_pow10_pos((n - 1) as nat);
    }
}

proof fn lemma_no_dot_no_frac(s: Seq<char>)
    requires
        dot_count(s) == 0,
    ensures
        frac_digits(s) == 0,
    decreases s.len(),
{
    if s.len() > 0 {
        lemma_nonneg_facts(s.drop_last());
        assert(dot_count(s.drop_last()) == 0);
        lemma_no_dot_no_frac(s.drop_last());
    }
}

/// Every prefix of a well-shaped body is well shaped, and its counts and
/// value are no larger than those of the whole.
proof fn lemma_prefix_facts(s: Seq<char>, k: int)
    requires
        0 <= k <= s.len(),
        body_ok(s),
    ensures
        body_ok(s.subrange(0, k)),
        dot_count(s.subrange(0, k)) <= dot_count(s),
        digit_count(s.subrange(0, k)) <= digit_count(s),
        0 <= digits_val(s.subrange(0, k)) <= digits_val(s),
        0 <= frac_digits(s.subrange(0, k)) <= frac_digits(s),
        0 <= digits_val(s),
    decreases s.len(),
{
    if k == s.len() {
        assert(s.subrange(0, k) =~= s);
        lemma_nonneg_facts(s);
    } else {
        let t = s.drop_last();
        assert(s.subrange(0, k) =~= t.subrange(0, k));
        lemma_prefix_facts(t, k);
        lemma_nonneg_facts(t);
        if s.last() == '.' {
            lemma_no_dot_no_frac(t);
        }
    }
}

proof fn lemma_nonneg_facts(s: Seq<char>)
    ensures
        0 <= digits_val(s),
        0 <= frac_digits(s),
        0 <= dot_count(s),
        0 <= digit_count(s),
    decreases s.len(),
{
    if s.len() > 0 {
        lemma_nonneg_facts(s.drop_last());
    }
}

proof fn lemma_pow10_mono(m: nat, n: nat)
    requires
        m <= n,
    ensures
        pow10(m) <= pow10(n),
    decreases n,
{
    lemma_pow10_pos(m);
    if m < n {
        lemma_pow10_mono(m, (n - 1) as nat);
    }
}

/// The value of a decimal digit, or `None` for any other character.
fn digit_of(c: char) -> (r: Option<i64>)
    ensures
        r is Some <==> is_digit(c),
        r matches Some(d) ==> d == digit_val(c),
{
    match c {
        '0' => Some(0),
        '1' => Some(1),
        '2' => Some(2),
        '3' => Some(3),
        '4' => Some(4),
        '5' => Some(5),
        '6' => Some(6),
        '7' => Some(7),
        '8' => Some(8),
        '9' => Some(9),
        _ => None,
    }
}

/// Parse a typed draft as a decimal number. Returns `None` exactly when the
/// text is not a decimal number, or its exact value leaves the machine
/// representation.
pub fn parse_decimal(chars: &Vec<char>) -> (r: Option<Rat>)
    ensures
        match (r, parse_of(chars@)) {
            (Some(c), Some(v)) => c@ == v && c.wf(),
            (None, None) => true,
            _ => false,
        },
{
    let s = Ghost(chars@);
    let n = chars.len();
    if n == 0 {
        return None;
    }
    let c0 = chars[0];
    let mut i: usize = if c0 == '-' || c0 == '+' {
        1
    } else {
        0
    };
    let start = Ghost(i as int);
    let neg = c0 == '-';
    let body = Ghost(s@.subrange(start@, n as int));
    proof {
        assert(start@ == parse_start(s@));
    }
    let mut num: i64 = 0;
    let mut den: i64 = 1;
    let mut seen_dot = false;
    let mut seen_digit = false;
    proof {
        assert(body@.subrange(0, 0) =~= Seq::<char>::empty());
    }
    while i < n
        invariant
            start@ <= i <= n,
            n == chars@.len(),
            s@ == chars@,
            body@ == s@.subrange(start@, n as int),
            start@ == parse_start(s@),
            neg == (s@.len() > 0 && s@[0] == '-'),
            0 <= start@ <= 1,
            body_ok(body@.subrange(0, i - start@)),
            dot_count(body@.subrange(0, i - start@)) == if seen_dot {
                1int
            } else {
                0int
            },
            seen_digit <==> digit_count(body@.subrange(0, i - start@)) > 0,
            num == digits_val(body@.subrange(0, i - start@)),
            num >= 0,
            den == pow10(frac_digits(body@.subrange(0, i - start@)) as nat),
            den >= 1,
        decreases n - i,
    {
        let ghost pre = body@.subrange(0, i - start@);
        let c = chars[i];
        proof {
            assert(body@.subrange(0, i + 1 - start@) =~= pre.push(c));
            assert(pre.push(c).drop_last() =~= pre);
            lemma_nonneg_facts(pre);
        }
        if c == '.' {
            if seen_dot {
                // A second dot: no suffix can make the draft well shaped.
                proof {
                    if body_ok(body@) {
                        lemma_prefix_facts(body@, i + 1 - start@);
                    }
                }
                return None;
            }
            proof {
                lemma_no_dot_no_frac(pre);
            }
            seen_dot = true;
        } else {
            let d = match digit_of(c) {
                Some(d) => d,
                None => {
                    proof {
                        if body_ok(body@) {
                            lemma_prefix_facts(body@, i + 1 - start@);
                        }
                    }
                    return None;
                },
            };
            seen_digit = true;
            let num10 = match num.checked_mul(10) {
                Some(v) => v,
                None => {
                    proof {
                        if body_ok(body@) && digit_count(body@) > 0 {
                            lemma_prefix_facts(body@, i + 1 - start@);
                        }
                    }
                    return None;
                },
            };
            num = match num10.checked_add(d) {
                Some(v) => v,
                None => {
                    proof {
                        if body_ok(body@) && digit_count(body@) > 0 {
                            lemma_prefix_facts(body@, i + 1 - start@);
                        }
                    }
                    return None;
                },
            };
            if seen_dot {
                den = match den.checked_mul(10) {
                    Some(v) => v,
                    None => {
                        proof {
                            if body_ok(body@) && digit_count(body@) > 0 {
                                lemma_prefix_facts(body@, i + 1 - start@);
                                lemma_pow10_mono(
                                    frac_digits(pre.push(c)) as nat,
                                    frac_digits(body@) as nat,
                                );
                            }
                        }
                        return None;
                    },
                };
            }
        }
        i = i + 1;
    }
    if !seen_digit {
        proof {
            assert(body@.subrange(0, n - start@) =~= body@);
        }
        return None;
    }
    proof {
        assert(body@.subrange(0, n - start@) =~= body@);
    }
    let signed = if neg {
        -num
    } else {
        num
    };
    Some(Rat { num: signed, den })
}

/// The character for a decimal digit value.
pub open spec fn digit_char(d: int) -> char {
    if d == 0 {
        '0'
    } else if d == 1 {
        '1'
    } else if d == 2 {
        '2'
    } else if d == 3 {
        '3'
    } else if d == 4 {
        '4'
    } else if d == 5 {
        '5'
    } else if d == 6 {
        '6'
    } else if d == 7 {
        '7'
    } else if d == 8 {
        '8'
    } else {
        '9'
    }
}

/// The decimal digits of a nonnegative integer, most significant first.
pub open spec fn digits_str(n: int) -> Seq<char>
    decreases n,
{
    if n < 10 {
        seq![digit_char(n)]
    } else {
        digits_str(n / 10) + seq![digit_char(n % 10)]
    }
}

/// A value counted in hundredths, rendered as a decimal string: the sign,
/// the integer part, and up to two fraction digits with trailing zeros
/// dropped (`-500 -> "-5"`, `375 -> "3.75"`, `50 -> "0.5"`).
pub open spec fn label_str(v100: int) -> Seq<char> {
    let mag = if v100 < 0 {
        -v100
    } else {
        v100
    };
    let sign: Seq<char> = if v100 < 0 {
        seq!['-']
    } else {
        Seq::empty()
    };
    let ip = mag / 100;
    let f = mag % 100;
    let frac: Seq<char> = if f == 0 {
        Seq::empty()
    } else if f % 10 == 0 {
        seq!['.', digit_char(f / 10)]
    } else {
        seq!['.', digit_char(f / 10), digit_char(f % 10)]
    };
    sign + digits_str(ip) + frac
}

/// The one-character string for a decimal digit value.
fn digit_str(d: u64) -> (r: &'static str)
    requires
        d < 10,
    ensures
        r@ =~= seq![digit_char(d as int)],
{
    proof {
        reveal_strlit("0");
        reveal_strlit("1");
        reveal_strlit("2");
        reveal_strlit("3");
        reveal_strlit("4");
        reveal_strlit("5");
        reveal_strlit("6");
        reveal_strlit("7");
        reveal_strlit("8");
        reveal_strlit("9");
    }
    match d {
        0 => "0",
        1 => "1",
        2 => "2",
        3 => "3",
        4 => "4",
        5 => "5",
        6 => "6",
        7 => "7",
        8 => "8",
        _ => "9",
    }
}

/// The decimal digits of `n`, most significant first.
fn digits_of(n: u64) -> (r: String)
    ensures
        r@ == digits_str(n as int),
    decreases n,
{
    if n < 10 {
        let mut s = String::new();
        s.append(digit_str(n));
        proof {
            assert(s@ =~= digits_str(n as int));
        }
        s
    } else {
        assert(n / 10 < n) by (nonlinear_arith)
            requires
                n >= 10,
        ;
        let mut s = digits_of(n / 10);
        s.append(digit_str(n % 10));
        proof {
            assert(s@ =~= digits_str(n as int));
        }
        s
    }
}

/// Render a value counted in hundredths as a decimal string.
pub fn format_hundredths(v100: i64) -> (r: String)
    requires
        v100 > i64::MIN,
    ensures
        r@ == label_str(v100 as int),
{
    let neg = v100 < 0;
    let mag: u64 = if neg {
        (-v100) as u64
    } else {
        v100 as u64
    };
    let ip = mag / 100;
    let f = mag % 100;
    let mut s = String::new();
    if neg {
        s.append("-");
        proof {
            reveal_strlit("-");
        }
    }
    let ds = digits_of(ip);
    s.append(ds.as_str());
    if f != 0 {
        s.append(".");
        proof {
            reveal_strlit(".");
        }
        s.append(digit_str(f / 10));
        if f % 10 != 0 {
            s.append(digit_str(f % 10));
        }
    }
    proof {
        assert(s@ =~= label_str(v100 as int));
    }
    s
}

} // verus!
