//! Decimal rendering of a signed 32-bit counter, verified against a
//! recursive specification of the usual base-ten notation.

use vstd::prelude::*;
use vstd::string::StringExecFns;

verus! {

/// The digit character for a value in `0 ..= 9`.
pub open spec fn spec_digit(d: int) -> char {
    if d == 0 {
        '0'
    } else if d == 1 {
        '1'
    } else if d == 2 {
        '2'
    } else if d == 3 {
        '3'
    } else if d == 4 {
        '4'
    } else if d == 5 {
        '5'
    } else if d == 6 {
        '6'
    } else if d == 7 {
        '7'
    } else if d == 8 {
        '8'
    } else {
        '9'
    }
}

/// The decimal digits of a non-negative value, most significant first and
/// with no leading zero except for the value zero itself.
pub open spec fn spec_nat_string(n: int) -> Seq<char>
    decreases n,
{
    if n < 10 {
        seq![spec_digit(n)]
    } else {
        spec_nat_string(n / 10).push(spec_digit(n % 10))
    }
}

/// The decimal notation of a signed value: a leading `-` for negatives,
/// then the digits of its magnitude.
pub open spec fn spec_int_string(n: int) -> Seq<char> {
    if n < 0 {
        seq!['-'] + spec_nat_string(-n)
    } else {
        spec_nat_string(n)
    }
}

fn push_digit(out: &mut String, d: u32)
    requires
        d < 10,
    ensures
        final(out)@ == old(out)@ + seq![spec_digit(d as int)],
{
    if d == 0 {
        proof {
            reveal_strlit("0");
            assert("0"@ =~= seq!['0']);
        }
        out.append("0");
    } else if d == 1 {
        proof {
            reveal_strlit("1");
            assert("1"@ =~= seq!['1']);
        }
        out.append("1");
    } else if d == 2 {
        proof {
            reveal_strlit("2");
            assert("2"@ =~= seq!['2']);
        }
        out.append("2");
    } else if d == 3 {
        proof {
            reveal_strlit("3");
            assert("3"@ =~= seq!['3']);
        }
        out.append("3");
    } else if d == 4 {
        proof {
            reveal_strlit("4");
            assert("4"@ =~= seq!['4']);
        }
        out.append("4");
    } else if d == 5 {
        proof {
            reveal_strlit("5");
            assert("5"@ =~= seq!['5']);
        }
        out.append("5");
    } else if d == 6 {
        proof {
            reveal_strlit("6");
            assert("6"@ =~= seq!['6']);
        }
        out.append("6");
    } else if d == 7 {
        proof {
            reveal_strlit("7");
            assert("7"@ =~= seq!['7']);
        }
        out.append("7");
    } else if d == 8 {
        proof {
            reveal_strlit("8");
            assert("8"@ =~= seq!['8']);
        }
        out.append("8");
    } else {
        proof {
            reveal_strlit("9");
            assert("9"@ =~= seq!['9']);
        }
        out.append("9");
    }
}

fn push_u32(out: &mut String, n: u32)
    ensures
        final(out)@ == old(out)@ + spec_nat_string(n as int),
    decreases n,
{
    if n < 10 {
        push_digit(out, n);
    } else {
        push_u32(out, n / 10);
        push_digit(out, n % 10);
        proof {
            assert(old(out)@ + spec_nat_string(n as int / 10) + seq![spec_digit(n as int % 10)]
                =~= old(out)@ + spec_nat_string(n as int));
        }
    }
}

/// The decimal notation of `n`, for instance `-12` as the three characters
/// `-`, `1`, `2`.
pub fn i32_to_string(n: i32) -> (r: String)
    ensures
        r@ == spec_int_string(n as int),
{
    let mut out = String::new();
    if n >= 0 {
        push_u32(&mut out, n as u32);
        proof {
            assert(Seq::<char>::empty() + spec_nat_string(n as int) =~= spec_nat_string(n as int));
        }
    } else {
        proof {
            reveal_strlit("-");
            assert("-"@ =~= seq!['-']);
        }
        out.append("-");
        let wide: i64 = n as i64;
        let magnitude: i64 = -wide;
        push_u32(&mut out, magnitude as u32);
        proof {
            assert(Seq::<char>::empty() + seq!['-'] + spec_nat_string(magnitude as int)
                =~= spec_int_string(n as int));
        }
    }
    out
}

} // verus!
