use vstd::prelude::*;
use vstd::string::StringExecFns;

verus! {

/// The character for a single decimal digit.
pub open spec fn spec_digit_char(d: nat) -> char {
    if d == 0 {
        '0'
    } else if d == 1 {
        '1'
    } else if d == 2 {
        '2'
    } else if d == 3 {
        '3'
    } else if d == 4 {
        '4'
    } else if d == 5 {
        '5'
    } else if d == 6 {
        '6'
    } else if d == 7 {
        '7'
    } else if d == 8 {
        '8'
    } else {
        '9'
    }
}

/// The decimal notation of a natural number, without leading zeroes
/// (except for the number zero itself).
pub open spec fn spec_decimal(n: nat) -> Seq<char>
    decreases n,
{
    if n < 10 {
        seq![spec_digit_char(n)]
    } else {
        spec_decimal(n / 10).push(spec_digit_char(n % 10))
    }
}

/// A one-character string slice for the digit `d`.
fn digit_str(d: u64) -> (res: &'static str)
    requires
        d < 10,
    ensures
        res@ =~= seq![spec_digit_char(d as nat)],
{
    proof {
        reveal_strlit("0");
        reveal_strlit("1");
        reveal_strlit("2");
        reveal_strlit("3");
        reveal_strlit("4");
        reveal_strlit("5");
        reveal_strlit("6");
        reveal_strlit("7");
        reveal_strlit("8");
        reveal_strlit("9");
    }
    match d {
        0 => "0",
        1 => "1",
        2 => "2",
        3 => "3",
        4 => "4",
        5 => "5",
        6 => "6",
        7 => "7",
        8 => "8",
        _ => "9",
    }
}

/// Render `n` in decimal notation.
pub fn u64_to_decimal(n: u64) -> (res: String)
    ensures
        res@ == spec_decimal(n as nat),
    decreases n,
{
    if n < 10 {
        digit_str(n).to_owned()
    } else {
        proof {
            assert(n / 10 < n) by (nonlinear_arith)
                requires
                    n >= 10,
            ;
        }
        let mut s = u64_to_decimal(n / 10);
        s.append(digit_str(n % 10));
        proof {
            assert(spec_decimal((n / 10) as nat) + seq![
                spec_digit_char((n % 10) as nat),
            ] =~= spec_decimal((n / 10) as nat).push(spec_digit_char((n % 10) as nat)));
        }
        s
    }
}

} // verus!
