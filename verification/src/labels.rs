//! Label text built from numbers: the side panel's "host1".."host59" rows
//! and the placeholder grid's "1 column".."6 column" headers.
use vstd::prelude::*;
use vstd::string::StringExecFns;

verus! {

/// The character for one decimal digit.
pub open spec fn digit_char(d: int) -> char
    recommends
        0 <= d <= 9,
{
    if d == 0 {
        '0'
    } else if d == 1 {
        '1'
    } else if d == 2 {
        '2'
    } else if d == 3 {
        '3'
    } else if d == 4 {
        '4'
    } else if d == 5 {
        '5'
    } else if d == 6 {
        '6'
    } else if d == 7 {
        '7'
    } else if d == 8 {
        '8'
    } else {
        '9'
    }
}

/// The decimal digits of `n`, most significant first, with no leading
/// zeros (a single '0' for zero itself).
pub open spec fn spec_digits(n: nat) -> Seq<char>
    decreases n,
{
    if n < 10 {
        seq![digit_char(n as int)]
    } else {
        spec_digits(n / 10).push(digit_char((n % 10) as int))
    }
}

/// The one-character string for digit `d`.
fn digit_str(d: u64) -> (r: &'static str)
    requires
        d <= 9,
    ensures
        r@ == seq![digit_char(d as int)],
{
    if d == 0 {
        proof {
            reveal_strlit("0");
            assert(("0")@ =~= seq![digit_char(0)]);
        }
        return "0";
    }
    if d == 1 {
        proof {
            reveal_strlit("1");
            assert(("1")@ =~= seq![digit_char(1)]);
        }
        return "1";
    }
    if d == 2 {
        proof {
            reveal_strlit("2");
            assert(("2")@ =~= seq![digit_char(2)]);
        }
        return "2";
    }
    if d == 3 {
        proof {
            reveal_strlit("3");
            assert(("3")@ =~= seq![digit_char(3)]);
        }
        return "3";
    }
    if d == 4 {
        proof {
            reveal_strlit("4");
            assert(("4")@ =~= seq![digit_char(4)]);
        }
        return "4";
    }
    if d == 5 {
        proof {
            reveal_strlit("5");
            assert(("5")@ =~= seq![digit_char(5)]);
        }
        return "5";
    }
    if d == 6 {
        proof {
            reveal_strlit("6");
            assert(("6")@ =~= seq![digit_char(6)]);
        }
        return "6";
    }
    if d == 7 {
        proof {
            reveal_strlit("7");
            assert(("7")@ =~= seq![digit_char(7)]);
        }
        return "7";
    }
    if d == 8 {
        proof {
            reveal_strlit("8");
            assert(("8")@ =~= seq![digit_char(8)]);
        }
        return "8";
    }
    proof {
        reveal_strlit("9");
        assert(("9")@ =~= seq![digit_char(9)]);
    }
    "9"
}

/// Appends the decimal digits of `n` to `s`.
fn push_digits(s: &mut String, n: u64)
    ensures
        final(s)@ == old(s)@ + spec_digits(n as nat),
    decreases n,
{
    if n >= 10 {
        push_digits(s, n / 10);
    }
    s.append(digit_str(n % 10));
    proof {
        assert(s@ =~= old(s)@ + spec_digits(n as nat));
    }
}

/// The side-panel label for host entry `n`: "host" followed by the decimal
/// digits of `n`.
pub fn host_label(n: u64) -> (r: String)
    ensures
        r@ == "host"@ + spec_digits(n as nat),
{
    let mut s = "host".to_owned();
    push_digits(&mut s, n);
    s
}

/// The grid header for column `c`: the decimal digits of `c` followed by
/// " column".
pub fn column_label(c: u64) -> (r: String)
    ensures
        r@ == spec_digits(c as nat) + " column"@,
{
    let mut s = String::new();
    push_digits(&mut s, c);
    s.append(" column");
    proof {
        assert(s@ =~= spec_digits(c as nat) + " column"@);
    }
    s
}

/// The six fixed column headers of the placeholder grid, in order.
pub fn grid_column_labels() -> (r: Vec<String>)
    ensures
        r@.len() == 6,
        forall|i: int| 0 <= i < 6 ==> (#[trigger] r@[i])@ == spec_digits((i + 1) as nat)
            + " column"@,
{
    let mut v: Vec<String> = Vec::new();
    let mut c: u64 = 1;
    while c <= 6
        invariant
            1 <= c <= 7,
            v@.len() + 1 == c,
            forall|i: int| 0 <= i < v@.len() ==> (#[trigger] v@[i])@ == spec_digits((i + 1) as nat)
                + " column"@,
        decreases 7 - c,
    {
        v.push(column_label(c));
        c = c + 1;
    }
    v
}

} // verus!
