use vstd::prelude::*;

verus! {

/// The character for one decimal digit.
pub open spec fn digit_char(d: nat) -> char {
    if d == 0 {
        '0'
    } else if d == 1 {
        '1'
    } else if d == 2 {
        '2'
    } else if d == 3 {
        '3'
    } else if d == 4 {
        '4'
    } else if d == 5 {
        '5'
    } else if d == 6 {
        '6'
    } else if d == 7 {
        '7'
    } else if d == 8 {
        '8'
    } else {
        '9'
    }
}

/// The decimal representation of a natural number, most significant digit
/// first, with no leading zeros (a single '0' for zero).
pub open spec fn dec_rep(n: nat) -> Seq<char>
    decreases n,
{
    if n < 10 {
        seq![digit_char(n)]
    } else {
        dec_rep(n / 10) + seq![digit_char(n % 10)]
    }
}

/// Append the character for one digit.
fn push_digit(s: &mut String, d: u8)
    requires
        d < 10,
    ensures
        final(s)@ == old(s)@ + seq![digit_char(d as nat)],
{
    match d {
        0 => {
            s.append("0");
            proof {
                reveal_strlit("0");
                assert(final(s)@ =~= old(s)@ + seq![digit_char(d as nat)]);
            }
        },
        1 => {
            s.append("1");
            proof {
                reveal_strlit("1");
                assert(final(s)@ =~= old(s)@ + seq![digit_char(d as nat)]);
            }
        },
        2 => {
            s.append("2");
            proof {
                reveal_strlit("2");
                assert(final(s)@ =~= old(s)@ + seq![digit_char(d as nat)]);
            }
        },
        3 => {
            s.append("3");
            proof {
                reveal_strlit("3");
                assert(final(s)@ =~= old(s)@ + seq![digit_char(d as nat)]);
            }
        },
        4 => {
            s.append("4");
            proof {
                reveal_strlit("4");
                assert(final(s)@ =~= old(s)@ + seq![digit_char(d as nat)]);
            }
        },
        5 => {
            s.append("5");
            proof {
                reveal_strlit("5");
                assert(final(s)@ =~= old(s)@ + seq![digit_char(d as nat)]);
            }
        },
        6 => {
            s.append("6");
            proof {
                reveal_strlit("6");
                assert(final(s)@ =~= old(s)@ + seq![digit_char(d as nat)]);
            }
        },
        7 => {
            s.append("7");
            proof {
                reveal_strlit("7");
                assert(final(s)@ =~= old(s)@ + seq![digit_char(d as nat)]);
            }
        },
        8 => {
            s.append("8");
            proof {
                reveal_strlit("8");
                assert(final(s)@ =~= old(s)@ + seq![digit_char(d as nat)]);
            }
        },
        _ => {
            s.append("9");
            proof {
                reveal_strlit("9");
                assert(final(s)@ =~= old(s)@ + seq![digit_char(d as nat)]);
            }
        },
    }
}

/// Render a pin number in decimal.
pub fn u8_to_string(n: u8) -> (s: String)
    ensures
        s@ == dec_rep(n as nat),
{
    let mut s = String::new();
    if n >= 100 {
        push_digit(&mut s, n / 100);
    }
    if n >= 10 {
        push_digit(&mut s, (n / 10) % 10);
    }
    push_digit(&mut s, n % 10);
    proof {
        if n < 10 {
            assert(s@ =~= dec_rep(n as nat));
        } else if n < 100 {
            assert((n / 10) % 10 == n as nat / 10);
            assert(dec_rep(n as nat) == dec_rep(n as nat / 10) + seq![digit_char(n as nat % 10)]);
            assert(dec_rep(n as nat / 10) == seq![digit_char(n as nat / 10)]);
            assert(s@ =~= dec_rep(n as nat));
        } else {
            assert((n as nat / 10) / 10 == n as nat / 100);
            assert(n as nat / 10 >= 10);
            assert(dec_rep(n as nat) == dec_rep(n as nat / 10) + seq![digit_char(n as nat % 10)]);
            assert(dec_rep(n as nat / 10) == dec_rep(n as nat / 100) + seq![
                digit_char((n as nat / 10) % 10),
            ]);
            assert(dec_rep(n as nat / 100) == seq![digit_char(n as nat / 100)]);
            assert(s@ =~= dec_rep(n as nat));
        }
    }
    s
}

} // verus!
