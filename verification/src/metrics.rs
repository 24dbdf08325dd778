use vstd::prelude::*;

verus! {

/// Nanoseconds per second, used to convert backend durations.
pub const NANOS_PER_SECOND: u64 = 1_000_000_000;

/// Result of one text-generation call: the generated text plus the
/// backend-reported token count and timings in nanoseconds.
pub struct GenerationResult {
    pub response: String,
    pub eval_count: u64,
    pub eval_duration_ns: u64,
    pub total_duration_ns: u64,
}

/// The decimal digit character for `d` (`d < 10`).
pub open spec fn digit_char(d: nat) -> char {
    if d == 0 {
        '0'
    } else if d == 1 {
        '1'
    } else if d == 2 {
        '2'
    } else if d == 3 {
        '3'
    } else if d == 4 {
        '4'
    } else if d == 5 {
        '5'
    } else if d == 6 {
        '6'
    } else if d == 7 {
        '7'
    } else if d == 8 {
        '8'
    } else {
        '9'
    }
}

/// Decimal digits of `n`, most significant first, with no leading zeros
/// (a single `'0'` for zero).
pub open spec fn spec_decimal(n: nat) -> Seq<char>
    decreases n,
{
    if n < 10 {
        seq![digit_char(n)]
    } else {
        spec_decimal(n / 10) + seq![digit_char(n % 10)]
    }
}

/// `x` hundredths rendered with two digits after the point: the decimal
/// digits of `x / 100`, a `'.'`, then the tens and units of `x % 100`.
pub open spec fn spec_centi(x: nat) -> Seq<char> {
    spec_decimal(x / 100) + seq!['.', digit_char((x / 10) % 10), digit_char(x % 10)]
}

/// A one-character string slice holding the digit character for `d`.
fn digit_str(d: u128) -> (s: &'static str)
    requires
        d < 10,
    ensures
        s@ =~= seq![digit_char(d as nat)],
{
    proof {
        reveal_strlit("0");
        reveal_strlit("1");
        reveal_strlit("2");
        reveal_strlit("3");
        reveal_strlit("4");
        reveal_strlit("5");
        reveal_strlit("6");
        reveal_strlit("7");
        reveal_strlit("8");
        reveal_strlit("9");
    }
    if d == 0 {
        "0"
    } else if d == 1 {
        "1"
    } else if d == 2 {
        "2"
    } else if d == 3 {
        "3"
    } else if d == 4 {
        "4"
    } else if d == 5 {
        "5"
    } else if d == 6 {
        "6"
    } else if d == 7 {
        "7"
    } else if d == 8 {
        "8"
    } else {
        "9"
    }
}

/// Appends the decimal digits of `n` to `out`, most significant first.
fn push_decimal(n: u128, out: &mut String)
    ensures
        final(out)@ == old(out)@ + spec_decimal(n as nat),
    decreases n,
{
    if n >= 10 {
        push_decimal(n / 10, out);
    }
    out.append(digit_str(n % 10));
}

/// Renders `n` in decimal, most significant digit first, no leading zeros.
pub fn decimal_str(n: u128) -> (r: String)
    ensures
        r@ == spec_decimal(n as nat),
{
    let mut out = String::new();
    push_decimal(n, &mut out);
    proof {
        assert(out@ =~= spec_decimal(n as nat));
    }
    out
}

/// Renders `x` hundredths as a decimal string with exactly two digits
/// after the point, truncating toward zero (`150` becomes `"1.50"`).
pub fn format_centi(x: u128) -> (r: String)
    ensures
        r@ == spec_centi(x as nat),
{
    let mut out = String::new();
    push_decimal(x / 100, &mut out);
    proof {
        reveal_strlit(".");
    }
    out.append(".");
    out.append(digit_str((x / 10) % 10));
    out.append(digit_str(x % 10));
    proof {
        assert(out@ =~= spec_centi(x as nat));
    }
    out
}

/// A duration of `ns` nanoseconds displayed in whole hundredths of a
/// second: the view of the string `duration_str` returns.
pub open spec fn spec_duration(ns: u64) -> Seq<char> {
    spec_centi(ns as nat / 10_000_000) + seq!['s']
}

/// Renders a nanosecond duration as seconds with two decimals and a
/// trailing `'s'` (`1_500_000_000` becomes `"1.50s"`).
pub fn duration_str(ns: u64) -> (r: String)
    ensures
        r@ == spec_duration(ns),
{
    let mut out = format_centi((ns / 10_000_000) as u128);
    proof {
        reveal_strlit("s");
    }
    out.append("s");
    proof {
        assert(out@ =~= spec_duration(ns));
    }
    out
}

/// Generation throughput in hundredths of a token per second:
/// `eval_count` tokens over `eval_duration_ns` nanoseconds. Undefined
/// (`None`) exactly when the duration is zero, so no division by zero
/// ever happens.
pub open spec fn spec_throughput_centi(eval_count: u64, eval_duration_ns: u64) -> Option<u128> {
    if eval_duration_ns == 0 {
        None
    } else {
        Some(((eval_count * 100 * NANOS_PER_SECOND as int) / eval_duration_ns as int) as u128)
    }
}

/// Computes throughput in hundredths of a token per second, guarding the
/// zero-duration case instead of dividing by zero.
pub fn throughput_centi(eval_count: u64, eval_duration_ns: u64) -> (r: Option<u128>)
    ensures
        r == spec_throughput_centi(eval_count, eval_duration_ns),
{
    if eval_duration_ns == 0 {
        None
    } else {
        Some((eval_count as u128) * 100 * (NANOS_PER_SECOND as u128) / (eval_duration_ns as u128))
    }
}

} // verus!
