//! Fixed-point real numbers: a constant is held as an integer count of
//! millionths, and rendered either truncated to three decimal places or
//! exactly, in its shortest decimal form.
use vstd::prelude::*;

verus! {

/// Number of stored units in one: the constant `c` stands for `c / CONST_SCALE`.
pub const CONST_SCALE: i64 = 1000000;

/// Stored units in one thousandth, the finest digit that rendering shows.
pub const UNITS_PER_THOUSANDTH: u64 = 1000;

pub open spec fn digit_char(d: nat) -> char {
    if d == 0 {
        '0'
    } else if d == 1 {
        '1'
    } else if d == 2 {
        '2'
    } else if d == 3 {
        '3'
    } else if d == 4 {
        '4'
    } else if d == 5 {
        '5'
    } else if d == 6 {
        '6'
    } else if d == 7 {
        '7'
    } else if d == 8 {
        '8'
    } else {
        '9'
    }
}

/// Decimal digits of `n`, without leading zeros.
pub open spec fn nat_text(n: nat) -> Seq<char>
    decreases n,
{
    if n < 10 {
        seq![digit_char(n)]
    } else {
        nat_text(n / 10).push(digit_char(n % 10))
    }
}

/// Exactly three decimal digits of `n < 1000`, zero-padded on the left.
pub open spec fn three_digits(n: nat) -> Seq<char> {
    seq![digit_char(n / 100), digit_char((n / 10) % 10), digit_char(n % 10)]
}

pub open spec fn abs(c: int) -> nat {
    if c < 0 {
        (-c) as nat
    } else {
        c as nat
    }
}

/// The text of the fixed-point value `c`: a minus sign when `c` is negative,
/// the integer part, a point, and the first three decimals, truncated.
pub open spec fn const_text(c: int) -> Seq<char> {
    let m = abs(c) / (UNITS_PER_THOUSANDTH as nat);
    let sign = if c < 0 {
        seq!['-']
    } else {
        Seq::<char>::empty()
    };
    sign + nat_text(m / 1000) + seq!['.'] + three_digits(m % 1000)
}

/// The last `w` decimal digits of `f`, zero-padded on the left.
pub open spec fn padded(f: nat, w: nat) -> Seq<char>
    decreases w,
{
    if w == 0 {
        Seq::<char>::empty()
    } else {
        padded(f / 10, (w - 1) as nat).push(digit_char(f % 10))
    }
}

/// The `w`-digit fraction `f` without its trailing zeros.
pub open spec fn fraction_digits(f: nat, w: nat) -> Seq<char>
    decreases w,
{
    if w > 0 && f % 10 == 0 {
        fraction_digits(f / 10, (w - 1) as nat)
    } else {
        padded(f, w)
    }
}

/// The exact decimal text of the fixed-point value `c`, in its shortest form:
/// a minus sign when `c` is negative, the integer part, and, unless `c` is
/// whole, a point and the six decimals of the fraction without trailing zeros.
pub open spec fn plain_text(c: int) -> Seq<char> {
    let a = abs(c);
    let sign = if c < 0 {
        seq!['-']
    } else {
        Seq::<char>::empty()
    };
    let whole = sign + nat_text(a / (CONST_SCALE as nat));
    if a % (CONST_SCALE as nat) == 0 {
        whole
    } else {
        whole + seq!['.'] + fraction_digits(a % (CONST_SCALE as nat), 6)
    }
}

pub(crate) fn digit_str(d: u64) -> (r: &'static str)
    requires
        d < 10,
    ensures
        r@ == seq![digit_char(d as nat)],
{
    proof {
        reveal_strlit("0");
        reveal_strlit("1");
        reveal_strlit("2");
        reveal_strlit("3");
        reveal_strlit("4");
        reveal_strlit("5");
        reveal_strlit("6");
        reveal_strlit("7");
        reveal_strlit("8");
        reveal_strlit("9");
    }
    if d == 0 {
        "0"
    } else if d == 1 {
        "1"
    } else if d == 2 {
        "2"
    } else if d == 3 {
        "3"
    } else if d == 4 {
        "4"
    } else if d == 5 {
        "5"
    } else if d == 6 {
        "6"
    } else if d == 7 {
        "7"
    } else if d == 8 {
        "8"
    } else {
        "9"
    }
}

/// Appends the decimal digits of `n` to `out`.
pub(crate) fn push_nat_text(out: &mut String, n: u64)
    ensures
        final(out)@ == old(out)@ + nat_text(n as nat),
    decreases n,
{
    if n < 10 {
        out.append(digit_str(n));
    } else {
        push_nat_text(out, n / 10);
        out.append(digit_str(n % 10));
        assert(old(out)@ + nat_text(n as nat) =~= old(out)@ + nat_text((n / 10) as nat) + seq![
            digit_char((n % 10) as nat),
        ]);
    }
}

fn push_padded(out: &mut String, f: u64, w: u64)
    ensures
        final(out)@ == old(out)@ + padded(f as nat, w as nat),
    decreases w,
{
    if w > 0 {
        push_padded(out, f / 10, w - 1);
        out.append(digit_str(f % 10));
        assert(old(out)@ + padded(f as nat, w as nat) =~= old(out)@ + padded((f / 10) as nat, (w - 1) as nat)
            + seq![digit_char((f % 10) as nat)]);
    }
}

fn magnitude(c: i64) -> (a: u64)
    ensures
        a as nat == abs(c as int),
{
    if c < 0 {
        (-(c + 1)) as u64 + 1
    } else {
        c as u64
    }
}

/// Renders the fixed-point value `c` exactly, in its shortest decimal form.
pub fn const_to_plain_text(c: i64) -> (r: String)
    ensures
        r@ == plain_text(c as int),
{
    let a = magnitude(c);
    let mut out = if c < 0 {
        String::from_str("-")
    } else {
        String::new()
    };
    proof {
        reveal_strlit("-");
        reveal_strlit(".");
    }
    push_nat_text(&mut out, a / (CONST_SCALE as u64));
    let f: u64 = a % (CONST_SCALE as u64);
    if f != 0 {
        out.append(".");
        let mut g: u64 = f;
        let mut w: u64 = 6;
        while w > 0 && g % 10 == 0
            invariant
                fraction_digits(g as nat, w as nat) == fraction_digits(f as nat, 6),
            decreases w,
        {
            g = g / 10;
            w = w - 1;
        }
        push_padded(&mut out, g, w);
    }
    assert(out@ =~= plain_text(c as int));
    out
}

/// Renders the fixed-point value `c` with three decimals, truncated toward zero.
pub fn const_to_text(c: i64) -> (r: String)
    ensures
        r@ == const_text(c as int),
{
    let a = magnitude(c);
    let m: u64 = a / UNITS_PER_THOUSANDTH;
    let mut out = if c < 0 {
        String::from_str("-")
    } else {
        String::new()
    };
    proof {
        reveal_strlit("-");
        reveal_strlit(".");
    }
    let ghost sign = out@;
    push_nat_text(&mut out, m / 1000);
    out.append(".");
    let f: u64 = m % 1000;
    out.append(digit_str(f / 100));
    out.append(digit_str((f / 10) % 10));
    out.append(digit_str(f % 10));
    assert(out@ =~= const_text(c as int));
    out
}

} // verus!
