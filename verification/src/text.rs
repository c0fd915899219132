//! Decimal and hexadecimal text of integers.
use vstd::prelude::*;
use vstd::string::StringExecFns;

verus! {

/// The character of a digit below 16; digits above 9 are lower-case letters.
pub open spec fn digit_char(d: nat) -> char {
    if d == 0 {
        '0'
    } else if d == 1 {
        '1'
    } else if d == 2 {
        '2'
    } else if d == 3 {
        '3'
    } else if d == 4 {
        '4'
    } else if d == 5 {
        '5'
    } else if d == 6 {
        '6'
    } else if d == 7 {
        '7'
    } else if d == 8 {
        '8'
    } else if d == 9 {
        '9'
    } else if d == 10 {
        'a'
    } else if d == 11 {
        'b'
    } else if d == 12 {
        'c'
    } else if d == 13 {
        'd'
    } else if d == 14 {
        'e'
    } else {
        'f'
    }
}

/// The decimal digits of `n`, without leading zeros.
pub open spec fn decimal(n: nat) -> Seq<char>
    decreases n,
{
    if n < 10 {
        seq![digit_char(n)]
    } else {
        decimal(n / 10).push(digit_char(n % 10))
    }
}

/// The last `width` hexadecimal digits of `n`, with leading zeros.
pub open spec fn hex_digits(n: nat, width: nat) -> Seq<char>
    decreases width,
{
    if width == 0 {
        seq![]
    } else {
        hex_digits(n / 16, (width - 1) as nat).push(digit_char(n % 16))
    }
}

/// The one-character text of a digit below 16.
fn digit_str(d: u8) -> (r: &'static str)
    requires
        d < 16,
    ensures
        r@ == seq![digit_char(d as nat)],
{
    if d == 0 {
        proof {
            reveal_strlit("0");
        }
        return "0";
    }
    if d == 1 {
        proof {
            reveal_strlit("1");
        }
        return "1";
    }
    if d == 2 {
        proof {
            reveal_strlit("2");
        }
        return "2";
    }
    if d == 3 {
        proof {
            reveal_strlit("3");
        }
        return "3";
    }
    if d == 4 {
        proof {
            reveal_strlit("4");
        }
        return "4";
    }
    if d == 5 {
        proof {
            reveal_strlit("5");
        }
        return "5";
    }
    if d == 6 {
        proof {
            reveal_strlit("6");
        }
        return "6";
    }
    if d == 7 {
        proof {
            reveal_strlit("7");
        }
        return "7";
    }
    if d == 8 {
        proof {
            reveal_strlit("8");
        }
        return "8";
    }
    if d == 9 {
        proof {
            reveal_strlit("9");
        }
        return "9";
    }
    if d == 10 {
        proof {
            reveal_strlit("a");
        }
        return "a";
    }
    if d == 11 {
        proof {
            reveal_strlit("b");
        }
        return "b";
    }
    if d == 12 {
        proof {
            reveal_strlit("c");
        }
        return "c";
    }
    if d == 13 {
        proof {
            reveal_strlit("d");
        }
        return "d";
    }
    if d == 14 {
        proof {
            reveal_strlit("e");
        }
        return "e";
    }
    proof {
        reveal_strlit("f");
    }
    "f"
}

/// Appends the decimal digits of `n`.
pub fn push_decimal(s: &mut String, n: usize)
    ensures
        final(s)@ == old(s)@ + decimal(n as nat),
    decreases n,
{
    if n >= 10 {
        push_decimal(s, n / 10);
    }
    let d = digit_str((n % 10) as u8);
    s.append(d);
    proof {
        if n >= 10 {
            assert(old(s)@ + decimal((n / 10) as nat) + d@ =~= old(s)@ + decimal(n as nat));
        } else {
            assert(old(s)@ + d@ =~= old(s)@ + decimal(n as nat));
        }
    }
}

/// Appends the last `width` hexadecimal digits of `n`, with leading zeros.
pub fn push_hex(s: &mut String, n: u16, width: usize)
    ensures
        final(s)@ == old(s)@ + hex_digits(n as nat, width as nat),
    decreases width,
{
    if width > 0 {
        push_hex(s, n / 16, width - 1);
        let d = digit_str((n % 16) as u8);
        s.append(d);
        proof {
            assert(old(s)@ + hex_digits((n / 16) as nat, (width - 1) as nat) + d@ =~= old(s)@ + hex_digits(
                n as nat,
                width as nat,
            ));
        }
    } else {
        proof {
            assert(old(s)@ + hex_digits(n as nat, 0) =~= old(s)@);
        }
    }
}

} // verus!
