//! Decimal text of integers: reading it back from parameters and the
//! environment, and writing it into error messages.
use vstd::prelude::*;

verus! {

pub open spec fn is_digit(c: char) -> bool {
    ('0' as int) <= (c as int) && (c as int) <= ('9' as int)
}

pub open spec fn digit_value(c: char) -> int {
    (c as int) - ('0' as int)
}

pub open spec fn all_digits(s: Seq<char>) -> bool {
    forall|i: int| 0 <= i < s.len() ==> #[trigger] is_digit(s[i])
}

/// The number that a run of decimal digits denotes, most significant first.
pub open spec fn digits_value(s: Seq<char>) -> int
    decreases s.len(),
{
    if s.len() == 0 {
        0
    } else {
        10 * digits_value(s.drop_last()) + digit_value(s.last())
    }
}

/// The magnitude written by `body`: one or more decimal digits and nothing else.
pub open spec fn magnitude(body: Seq<char>) -> Option<int> {
    if body.len() > 0 && all_digits(body) {
        Some(digits_value(body))
    } else {
        None
    }
}

pub open spec fn in_range(v: int, lo: int, hi: int) -> Option<int> {
    if lo <= v && v <= hi {
        Some(v)
    } else {
        None
    }
}

/// What std's `FromStr` for an integer type reads from `s`: an optional sign
/// (`-` only for signed types), then one or more decimal digits and nothing
/// else, denoting a value between `lo` and `hi`.
pub open spec fn spec_parse_int(s: Seq<char>, signed: bool, lo: int, hi: int) -> Option<int> {
    if signed && s.len() > 0 && s[0] == '-' {
        match magnitude(s.drop_first()) {
            Some(m) => in_range(-m, lo, hi),
            None => None,
        }
    } else {
        let body = if s.len() > 0 && s[0] == '+' { s.drop_first() } else { s };
        match magnitude(body) {
            Some(m) => in_range(m, lo, hi),
            None => None,
        }
    }
}

pub open spec fn digit_char(d: int) -> char {
    (('0' as int) + d) as char
}

/// The decimal digits of a natural number, without leading zeros.
pub open spec fn nat_digits(n: nat) -> Seq<char>
    decreases n,
{
    if n < 10 {
        seq![digit_char(n as int)]
    } else {
        nat_digits(n / 10).push(digit_char((n % 10) as int))
    }
}

/// The decimal text of an integer, with a leading `-` when it is negative.
pub open spec fn decimal(n: int) -> Seq<char> {
    if n < 0 {
        seq!['-'] + nat_digits((-n) as nat)
    } else {
        nat_digits(n as nat)
    }
}

proof fn lemma_digits_value_nonneg(s: Seq<char>)
    requires
        all_digits(s),
    ensures
        digits_value(s) >= 0,
    decreases s.len(),
{
    if s.len() > 0 {
        assert(is_digit(s[s.len() - 1]));
        lemma_digits_value_nonneg(s.drop_last());
    }
}

/// A prefix of a run of digits never denotes more than the whole run.
proof fn lemma_digits_value_prefix(s: Seq<char>, k: int)
    requires
        all_digits(s),
        0 <= k <= s.len(),
    ensures
        digits_value(s.take(k)) <= digits_value(s),
    decreases s.len(),
{
    if k < s.len() {
        let t = s.drop_last();
        assert(t.take(k) =~= s.take(k));
        lemma_digits_value_prefix(t, k);
        lemma_digits_value_nonneg(t);
        assert(is_digit(s[s.len() - 1]));
    } else {
        assert(s.take(k) =~= s);
    }
}

proof fn lemma_nat_digits(n: nat)
    ensures
        nat_digits(n).len() > 0,
        all_digits(nat_digits(n)),
        digits_value(nat_digits(n)) == n,
        is_digit(nat_digits(n)[0]),
    decreases n,
{
    if n < 10 {
        let s = nat_digits(n);
        assert(s.drop_last() =~= Seq::<char>::empty());
        assert(digit_value(digit_char(n as int)) == n);
        assert(digits_value(s) == 10 * digits_value(s.drop_last()) + digit_value(s.last()));
    } else {
        lemma_nat_digits(n / 10);
        let s = nat_digits(n);
        assert(s.drop_last() =~= nat_digits(n / 10));
        assert(digit_value(digit_char((n % 10) as int)) == n % 10);
        assert(s.last() == digit_char((n % 10) as int));
        assert(digits_value(s) == 10 * digits_value(s.drop_last()) + digit_value(s.last()));
        assert(10 * (n / 10) + n % 10 == n);
        assert forall|i: int| 0 <= i < s.len() implies #[trigger] is_digit(s[i]) by {
            if i < s.len() - 1 {
                assert(s[i] == nat_digits(n / 10)[i]);
            }
        }
    }
}

/// Writing an integer in decimal and reading it back gives the same integer,
/// for every integer in the range of the type that reads it.
pub proof fn lemma_decimal_parses_back(n: int, signed: bool, lo: int, hi: int)
    requires
        lo <= n <= hi,
        n < 0 ==> signed,
    ensures
        spec_parse_int(decimal(n), signed, lo, hi) == Some(n),
{
    if n < 0 {
        let m = (-n) as nat;
        lemma_nat_digits(m);
        let s = decimal(n);
        assert(s[0] == '-');
        assert(s.drop_first() =~= nat_digits(m));
    } else {
        let m = n as nat;
        lemma_nat_digits(m);
        let s = decimal(n);
        assert(is_digit(s[0]));
        assert(s[0] != '-' && s[0] != '+');
    }
}

/// The decimal text of any integer reads as that integer exactly when the
/// integer is in the reader's range (and, for a negative one, the reader
/// takes a sign); otherwise it does not read at all.
pub proof fn lemma_decimal_reads_as(n: int, signed: bool, lo: int, hi: int)
    ensures
        spec_parse_int(decimal(n), signed, lo, hi) == if n < 0 && !signed {
            None
        } else {
            in_range(n, lo, hi)
        },
{
    let s = decimal(n);
    if n < 0 {
        let m = (-n) as nat;
        lemma_nat_digits(m);
        assert(s[0] == '-');
        assert(s.drop_first() =~= nat_digits(m));
        if !signed {
            assert(!is_digit(s[0]));
        }
    } else {
        let m = n as nat;
        lemma_nat_digits(m);
        assert(is_digit(s[0]));
        assert(s[0] != '-' && s[0] != '+');
    }
}

/// Reads an integer from `s` as std's `FromStr` for an integer type with
/// range `lo..=hi` reads it; `signed` says whether a leading `-` is allowed.
pub fn parse_integer(s: &str, signed: bool, lo: i64, hi: i64) -> (r: Option<i64>)
    ensures
        match r {
            Some(v) => spec_parse_int(s@, signed, lo as int, hi as int) == Some(v as int),
            None => spec_parse_int(s@, signed, lo as int, hi as int) is None,
        },
{
    let n = s.unicode_len();
    if n == 0 {
        return None;
    }
    let c0 = s.get_char(0);
    let neg = signed && c0 == '-';
    let start: usize = if neg || c0 == '+' { 1 } else { 0 };
    let ghost body = s@.subrange(start as int, n as int);
    let ghost spec = spec_parse_int(s@, signed, lo as int, hi as int);
    proof {
        if neg || c0 == '+' {
            assert(body =~= s@.drop_first());
        } else {
            assert(body =~= s@);
        }
    }
    assert(spec == match magnitude(body) {
        Some(m) => in_range(if neg { -m } else { m }, lo as int, hi as int),
        None => None,
    });
    if start == n {
        return None;
    }
    let mut mag: u64 = 0;
    let mut i: usize = start;
    while i < n
        invariant
            n == s@.len(),
            start <= i <= n,
            start < n,
            body == s@.subrange(start as int, n as int),
            spec == spec_parse_int(s@, signed, lo as int, hi as int),
            spec == match magnitude(body) {
                Some(m) => in_range(if neg { -m } else { m }, lo as int, hi as int),
                None => None,
            },
            all_digits(s@.subrange(start as int, i as int)),
            mag as int == digits_value(s@.subrange(start as int, i as int)),
        decreases n - i,
    {
        let c = s.get_char(i);
        let ghost prev = s@.subrange(start as int, i as int);
        let ghost next = s@.subrange(start as int, i + 1);
        assert(next.drop_last() =~= prev);
        if !(c >= '0' && c <= '9') {
            proof {
                assert(body[i - start] == c);
                assert(!is_digit(body[i - start]));
            }
            return None;
        }
        let d = (c as u32 - '0' as u32) as u64;
        assert(d as int == digit_value(c));
        if mag > (u64::MAX - d) / 10 {
            proof {
                assert(all_digits(next));
                assert(digits_value(next) > u64::MAX) by (nonlinear_arith)
                    requires
                        digits_value(next) == 10 * (mag as int) + d,
                        mag > (u64::MAX - d) / 10,
                        d <= 9,
                ;
                if all_digits(body) {
                    assert(body.take(i + 1 - start) =~= next);
                    lemma_digits_value_prefix(body, i + 1 - start);
                }
            }
            return None;
        }
        assert(10 * mag + d <= u64::MAX) by (nonlinear_arith)
            requires
                mag <= (u64::MAX - d) / 10,
                d <= 9,
        ;
        mag = mag * 10 + d;
        i = i + 1;
    }
    assert(s@.subrange(start as int, n as int) == body);
    let v: i128 = if neg { -(mag as i128) } else { mag as i128 };
    if (lo as i128) <= v && v <= (hi as i128) {
        Some(v as i64)
    } else {
        None
    }
}

fn digit_text(d: u64) -> (r: &'static str)
    requires
        d < 10,
    ensures
        r@ == seq![digit_char(d as int)],
{
    if d == 0 {
        proof { reveal_strlit("0"); }
        "0"
    } else if d == 1 {
        proof { reveal_strlit("1"); }
        "1"
    } else if d == 2 {
        proof { reveal_strlit("2"); }
        "2"
    } else if d == 3 {
        proof { reveal_strlit("3"); }
        "3"
    } else if d == 4 {
        proof { reveal_strlit("4"); }
        "4"
    } else if d == 5 {
        proof { reveal_strlit("5"); }
        "5"
    } else if d == 6 {
        proof { reveal_strlit("6"); }
        "6"
    } else if d == 7 {
        proof { reveal_strlit("7"); }
        "7"
    } else if d == 8 {
        proof { reveal_strlit("8"); }
        "8"
    } else {
        proof { reveal_strlit("9"); }
        "9"
    }
}

fn write_digits(m: u64, out: &mut String)
    ensures
        final(out)@ == old(out)@ + nat_digits(m as nat),
    decreases m,
{
    if m >= 10 {
        write_digits(m / 10, out);
    }
    out.append(digit_text(m % 10));
    proof {
        if m < 10 {
            assert(nat_digits(m as nat) == seq![digit_char(m as int)]);
        }
    }
}

/// Appends the decimal text of `n` to `out`.
pub fn append_decimal(out: &mut String, n: i64)
    ensures
        final(out)@ == old(out)@ + decimal(n as int),
{
    if n < 0 {
        proof { reveal_strlit("-"); }
        out.append("-");
        let m: u64 = (-(n as i128)) as u64;
        write_digits(m, out);
    } else {
        write_digits(n as u64, out);
    }
}

} // verus!
