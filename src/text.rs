//! Decimal text of integers and of fixed-point numbers.
use vstd::prelude::*;
use vstd::string::StringExecFns;

verus! {

/// The character of a decimal digit.
pub open spec fn digit_char(d: nat) -> char {
    seq!['0', '1', '2', '3', '4', '5', '6', '7', '8', '9'][d as int]
}

/// The decimal digits of `n`, most significant first, without leading zeros.
pub open spec fn nat_text(n: nat) -> Seq<char>
    decreases n,
{
    if n < 10 {
        seq![digit_char(n)]
    } else {
        nat_text(n / 10).push(digit_char(n % 10))
    }
}

/// The last `width` decimal digits of `n`, padded on the left with zeros.
pub open spec fn padded_text(n: nat, width: nat) -> Seq<char>
    decreases width,
{
    if width == 0 {
        Seq::empty()
    } else {
        padded_text(n / 10, (width - 1) as nat).push(digit_char(n % 10))
    }
}

/// Ten to the power `width`.
pub open spec fn pow10(width: nat) -> nat
    decreases width,
{
    if width == 0 {
        1
    } else {
        10 * pow10((width - 1) as nat)
    }
}

/// The absolute value of an integer.
pub open spec fn abs_int(v: int) -> nat {
    if v < 0 {
        (-v) as nat
    } else {
        v as nat
    }
}

/// The text of `v / 10^width` with exactly `width` digits after the point,
/// and a leading minus sign where `v` is negative.
pub open spec fn fixed_text(v: int, width: nat) -> Seq<char> {
    let sign = if v < 0 {
        seq!['-']
    } else {
        Seq::empty()
    };
    sign + nat_text(abs_int(v) / pow10(width)) + seq!['.'] + padded_text(abs_int(v) % pow10(width), width)
}

/// The text of a single decimal digit.
fn digit_str(d: u64) -> (s: &'static str)
    requires
        d < 10,
    ensures
        s@ == seq![digit_char(d as nat)],
{
    proof {
        reveal_strlit("0");
        reveal_strlit("1");
        reveal_strlit("2");
        reveal_strlit("3");
        reveal_strlit("4");
        reveal_strlit("5");
        reveal_strlit("6");
        reveal_strlit("7");
        reveal_strlit("8");
        reveal_strlit("9");
    }
    let s = if d == 0 {
        "0"
    } else if d == 1 {
        "1"
    } else if d == 2 {
        "2"
    } else if d == 3 {
        "3"
    } else if d == 4 {
        "4"
    } else if d == 5 {
        "5"
    } else if d == 6 {
        "6"
    } else if d == 7 {
        "7"
    } else if d == 8 {
        "8"
    } else {
        "9"
    };
    assert(s@ =~= seq![digit_char(d as nat)]);
    s
}

/// Appends the last `width` digits of `n`, zero padded, to `out`.
fn push_padded(out: &mut String, n: u64, width: u64)
    ensures
        final(out)@ == old(out)@ + padded_text(n as nat, width as nat),
    decreases width,
{
    if width == 0 {
        assert(old(out)@ + padded_text(n as nat, 0) =~= old(out)@);
    } else {
        push_padded(out, n / 10, width - 1);
        out.append(digit_str(n % 10));
        assert(padded_text(n as nat, width as nat) =~= padded_text(
            (n / 10) as nat,
            (width - 1) as nat,
        ).push(digit_char((n % 10) as nat)));
    }
}

/// Ten to the power `width`, as a machine integer.
fn pow10_exec(width: u64) -> (p: u64)
    requires
        width <= 18,
    ensures
        p == pow10(width as nat),
{
    let mut p: u64 = 1;
    let mut i: u64 = 0;
    proof {
        lemma_pow10_monotone(0, 18);
        reveal_with_fuel(pow10, 19);
        assert(pow10(18) == 1_000_000_000_000_000_000);
    }
    while i < width
        invariant
            i <= width <= 18,
            p == pow10(i as nat),
            p <= pow10(18),
            pow10(18) == 1_000_000_000_000_000_000,
        decreases width - i,
    {
        proof {
            lemma_pow10_monotone((i + 1) as nat, 18);
        }
        p = p * 10;
        i = i + 1;
    }
    p
}

proof fn lemma_pow10_monotone(a: nat, b: nat)
    requires
        a <= b,
    ensures
        1 <= pow10(a) <= pow10(b),
    decreases b,
{
    if a < b {
        lemma_pow10_monotone(a, (b - 1) as nat);
    } else if a > 0 {
        lemma_pow10_monotone((a - 1) as nat, (a - 1) as nat);
    }
}

/// Appends the fixed-point text of `v / 10^width` to `out`.
pub fn push_fixed(out: &mut String, v: i64, width: u64)
    requires
        width <= 18,
    ensures
        final(out)@ == old(out)@ + fixed_text(v as int, width as nat),
{
    let unit = pow10_exec(width);
    proof {
        lemma_pow10_monotone(width as nat, width as nat);
    }
    let magnitude: u64 = if v < 0 {
        if v == i64::MIN {
            9_223_372_036_854_775_808u64
        } else {
            (-v) as u64
        }
    } else {
        v as u64
    };
    assert(magnitude == abs_int(v as int));
    let ghost start = out@;
    let ghost sign: Seq<char> = if v < 0 {
        seq!['-']
    } else {
        Seq::empty()
    };
    if v < 0 {
        proof {
            reveal_strlit("-");
        }
        out.append("-");
    }
    assert(out@ =~= start + sign);
    push_decimal(out, magnitude / unit);
    proof {
        reveal_strlit(".");
    }
    out.append(".");
    push_padded(out, magnitude % unit, width);
    assert(out@ =~= start + fixed_text(v as int, width as nat));
}

/// Appends the decimal digits of `n` to `out`.
pub fn push_decimal(out: &mut String, n: u64)
    ensures
        final(out)@ == old(out)@ + nat_text(n as nat),
    decreases n,
{
    let ghost start = out@;
    if n >= 10 {
        push_decimal(out, n / 10);
    }
    out.append(digit_str(n % 10));
    assert(out@ =~= start + nat_text(n as nat));
}

} // verus!
